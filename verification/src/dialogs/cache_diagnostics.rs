//! The cache: its counters, and the settings that can be changed while it runs.

use crate::session::{is_text, UiError};
use crate::text::{a_written_number_reads_back, decimal, fitting_number, number, parse_number, trim, trimmed};
use vstd::prelude::*;
use vstd::string::*;

verus! {

/// What the cache reports of itself.
#[derive(Debug)]
pub struct CacheStats {
    pub enabled: bool,
    pub service_principal_ttl_secs: u64,
    pub permissions_ttl_secs: u64,
    pub audit_ttl_secs: u64,
    pub lists_ttl_secs: u64,
    pub max_cache_size: u64,
}

/// The settings to apply.
#[derive(Clone, Copy, Debug, PartialEq, Eq, Structural)]
pub struct CacheSettings {
    pub service_principal_ttl_secs: u64,
    pub permissions_ttl_secs: u64,
    pub audit_ttl_secs: u64,
    pub lists_ttl_secs: u64,
    pub max_cache_size: u64,
}

/// The cache dialog.
#[derive(Debug)]
pub struct CacheDiagnosticsDialog {
    pub stats: Option<CacheStats>,
    pub sp_ttl_min: String,
    pub perm_ttl_min: String,
    pub audit_ttl_min: String,
    pub lists_ttl_min: String,
    pub max_size: String,
    pub config_error: Option<String>,
}

/// The number in a field, without the white space around it.
pub open spec fn field_number(s: Seq<char>) -> Option<nat> {
    fitting_number(trimmed(s))
}

/// The minutes in a field can be counted in seconds.
pub open spec fn minutes_fit(s: Seq<char>) -> bool {
    field_number(s) matches Some(n) ==> n * 60 <= u64::MAX
}

fn read_number(s: &str) -> (r: Option<u64>)
    ensures
        r is Some <==> field_number(s@) is Some,
        r matches Some(n) ==> field_number(s@) == Some(n as nat),
{
    parse_number(trim(s).as_str())
}

fn read_minutes(s: &str) -> (r: Option<u64>)
    requires
        minutes_fit(s@),
    ensures
        r is Some <==> field_number(s@) is Some,
        r matches Some(n) ==> n == field_number(s@)->0 * 60,
{
    match read_number(s) {
        Some(n) => Some(n * 60),
        None => None,
    }
}

fn fits(s: &str) -> (r: bool)
    ensures
        r == minutes_fit(s@),
{
    match read_number(s) {
        Some(n) => n <= u64::MAX / 60,
        None => true,
    }
}

impl CacheDiagnosticsDialog {
    /// Nothing loaded yet.
    pub fn new() -> (r: CacheDiagnosticsDialog)
        ensures
            r.stats is None,
            r.config_error is None,
            r.sp_ttl_min@.len() == 0,
            r.perm_ttl_min@.len() == 0,
            r.audit_ttl_min@.len() == 0,
            r.lists_ttl_min@.len() == 0,
            r.max_size@.len() == 0,
    {
        CacheDiagnosticsDialog {
            stats: None,
            sp_ttl_min: String::new(),
            perm_ttl_min: String::new(),
            audit_ttl_min: String::new(),
            lists_ttl_min: String::new(),
            max_size: String::new(),
            config_error: None,
        }
    }

    /// The dialog has been opened and the report is there: it fills the fields,
    /// life times in minutes.
    pub fn opened(&mut self, stats: CacheStats)
        ensures
            final(self).stats == Some(stats),
            final(self).config_error is None,
            seeded(*final(self), stats),
            final(self).sp_ttl_min@ == decimal((stats.service_principal_ttl_secs / 60) as nat),
            final(self).perm_ttl_min@ == decimal((stats.permissions_ttl_secs / 60) as nat),
            final(self).audit_ttl_min@ == decimal((stats.audit_ttl_secs / 60) as nat),
            final(self).lists_ttl_min@ == decimal((stats.lists_ttl_secs / 60) as nat),
            final(self).max_size@ == decimal(stats.max_cache_size as nat),
    {
        self.sp_ttl_min = number(stats.service_principal_ttl_secs / 60);
        self.perm_ttl_min = number(stats.permissions_ttl_secs / 60);
        self.audit_ttl_min = number(stats.audit_ttl_secs / 60);
        self.lists_ttl_min = number(stats.lists_ttl_secs / 60);
        self.max_size = number(stats.max_cache_size);
        self.config_error = None;
        self.stats = Some(stats);
    }

    /// What "Toggle enabled" sets the cache to: the opposite of what is known,
    /// enabled if nothing is.
    pub fn toggled(&self) -> (r: bool)
        ensures
            r == match self.stats {
                Some(s) => !s.enabled,
                None => true,
            },
    {
        match &self.stats {
            Some(s) => !s.enabled,
            None => true,
        }
    }

    /// Another report of the cache.
    pub fn reported(&mut self, stats: CacheStats)
        ensures
            *final(self) == (CacheDiagnosticsDialog { stats: Some(stats), ..*old(self) }),
    {
        self.stats = Some(stats);
    }

    /// Every life time can be counted in seconds.
    pub open spec fn in_range(self) -> bool {
        minutes_fit(self.sp_ttl_min@) && minutes_fit(self.perm_ttl_min@) && minutes_fit(
            self.audit_ttl_min@,
        ) && minutes_fit(self.lists_ttl_min@)
    }

    /// Whether every life time can be counted in seconds.
    pub fn is_in_range(&self) -> (r: bool)
        ensures
            r == self.in_range(),
    {
        fits(self.sp_ttl_min.as_str()) && fits(self.perm_ttl_min.as_str()) && fits(
            self.audit_ttl_min.as_str(),
        ) && fits(self.lists_ttl_min.as_str())
    }

    /// Every field holds a whole number.
    pub open spec fn complete(self) -> bool {
        field_number(self.sp_ttl_min@) is Some && field_number(self.perm_ttl_min@) is Some
            && field_number(self.audit_ttl_min@) is Some && field_number(self.lists_ttl_min@) is Some
            && field_number(self.max_size@) is Some
    }

    /// "Apply config": the settings to apply, if every field holds a whole
    /// number.
    pub fn apply_config(&mut self) -> (r: Option<CacheSettings>)
        requires
            old(self).in_range(),
        ensures
            r is Some <==> old(self).complete(),
            r matches Some(c) ==> {
                &&& c.service_principal_ttl_secs == field_number(old(self).sp_ttl_min@)->0 * 60
                &&& c.permissions_ttl_secs == field_number(old(self).perm_ttl_min@)->0 * 60
                &&& c.audit_ttl_secs == field_number(old(self).audit_ttl_min@)->0 * 60
                &&& c.lists_ttl_secs == field_number(old(self).lists_ttl_min@)->0 * 60
                &&& c.max_cache_size == field_number(old(self).max_size@)->0
                &&& final(self).config_error is None
            },
            r is None ==> is_text(
                final(self).config_error,
                "Enter whole numbers for all fields."@,
            ),
            *final(self) == (CacheDiagnosticsDialog {
                config_error: final(self).config_error,
                ..*old(self)
            }),
            r matches Some(c) ==> fitting_number(trimmed(old(self).sp_ttl_min@)) == Some(
                (c.service_principal_ttl_secs / 60) as nat,
            ) && c.service_principal_ttl_secs % 60 == 0
                && fitting_number(trimmed(old(self).perm_ttl_min@)) == Some(
                (c.permissions_ttl_secs / 60) as nat,
            ) && c.permissions_ttl_secs % 60 == 0
                && fitting_number(trimmed(old(self).audit_ttl_min@)) == Some(
                (c.audit_ttl_secs / 60) as nat,
            ) && c.audit_ttl_secs % 60 == 0 && fitting_number(trimmed(old(self).lists_ttl_min@))
                == Some(
                (c.lists_ttl_secs / 60) as nat,
            ) && c.lists_ttl_secs % 60 == 0 && fitting_number(trimmed(old(self).max_size@)) == Some(
                c.max_cache_size as nat,
            ),
            r is Some <==> fitting_number(trimmed(old(self).sp_ttl_min@)) is Some
                && fitting_number(trimmed(old(self).perm_ttl_min@)) is Some
                && fitting_number(trimmed(old(self).audit_ttl_min@)) is Some
                && fitting_number(trimmed(old(self).lists_ttl_min@)) is Some
                && fitting_number(trimmed(old(self).max_size@)) is Some,
    {
        self.config_error = None;
        let sp = read_minutes(self.sp_ttl_min.as_str());
        let perm = read_minutes(self.perm_ttl_min.as_str());
        let audit = read_minutes(self.audit_ttl_min.as_str());
        let lists = read_minutes(self.lists_ttl_min.as_str());
        let max = read_number(self.max_size.as_str());
        match (sp, perm, audit, lists, max) {
            (Some(sp), Some(perm), Some(audit), Some(lists), Some(max)) => Some(
                CacheSettings {
                    service_principal_ttl_secs: sp,
                    permissions_ttl_secs: perm,
                    audit_ttl_secs: audit,
                    lists_ttl_secs: lists,
                    max_cache_size: max,
                },
            ),
            _ => {
                self.config_error = Some("Enter whole numbers for all fields.".to_owned());
                None
            },
        }
    }

    /// "Apply config" on whatever was typed. Nothing is done where a life time is
    /// too long to be counted in seconds: the result is then an error.
    pub fn try_apply_config(&mut self) -> (r: Result<Option<CacheSettings>, ()>)
        ensures
            r is Err <==> !old(self).in_range(),
            r is Ok <==> (fitting_number(trimmed(old(self).sp_ttl_min@)) matches Some(n) ==> n * 60
                <= u64::MAX) && (fitting_number(trimmed(old(self).perm_ttl_min@)) matches Some(n)
                    ==> n * 60
                <= u64::MAX) && (fitting_number(trimmed(old(self).audit_ttl_min@)) matches Some(n)
                    ==> n * 60
                <= u64::MAX) && (fitting_number(trimmed(old(self).lists_ttl_min@)) matches Some(n)
                    ==> n * 60
                <= u64::MAX),
            r matches Ok(Some(c)) ==> fitting_number(trimmed(old(self).sp_ttl_min@)) == Some(
                (c.service_principal_ttl_secs / 60) as nat,
            ) && c.service_principal_ttl_secs % 60 == 0
                && fitting_number(trimmed(old(self).perm_ttl_min@)) == Some(
                (c.permissions_ttl_secs / 60) as nat,
            ) && c.permissions_ttl_secs % 60 == 0
                && fitting_number(trimmed(old(self).audit_ttl_min@)) == Some(
                (c.audit_ttl_secs / 60) as nat,
            ) && c.audit_ttl_secs % 60 == 0 && fitting_number(trimmed(old(self).lists_ttl_min@))
                == Some(
                (c.lists_ttl_secs / 60) as nat,
            ) && c.lists_ttl_secs % 60 == 0 && fitting_number(trimmed(old(self).max_size@)) == Some(
                c.max_cache_size as nat,
            ),
            r is Err ==> *final(self) == *old(self),
            r matches Ok(o) ==> {
                &&& o is Some <==> old(self).complete()
                &&& o matches Some(c) ==> {
                    &&& c.service_principal_ttl_secs == field_number(old(self).sp_ttl_min@)->0 * 60
                    &&& c.permissions_ttl_secs == field_number(old(self).perm_ttl_min@)->0 * 60
                    &&& c.audit_ttl_secs == field_number(old(self).audit_ttl_min@)->0 * 60
                    &&& c.lists_ttl_secs == field_number(old(self).lists_ttl_min@)->0 * 60
                    &&& c.max_cache_size == field_number(old(self).max_size@)->0
                    &&& final(self).config_error is None
                }
                &&& o is None ==> is_text(
                    final(self).config_error,
                    "Enter whole numbers for all fields."@,
                )
                &&& *final(self) == (CacheDiagnosticsDialog {
                    config_error: final(self).config_error,
                    ..*old(self)
                })
            },
    {
        if !self.is_in_range() {
            return Err(());
        }
        Ok(self.apply_config())
    }

    /// The settings have been refused.
    pub fn refused(&mut self, e: UiError)
        ensures
            *final(self) == (CacheDiagnosticsDialog {
                config_error: Some(e.message),
                ..*old(self)
            }),
    {
        self.config_error = Some(e.message);
    }
}

/// The fields show the report.
pub open spec fn seeded(d: CacheDiagnosticsDialog, stats: CacheStats) -> bool {
    &&& d.sp_ttl_min@ == decimal((stats.service_principal_ttl_secs / 60) as nat)
    &&& d.perm_ttl_min@ == decimal((stats.permissions_ttl_secs / 60) as nat)
    &&& d.audit_ttl_min@ == decimal((stats.audit_ttl_secs / 60) as nat)
    &&& d.lists_ttl_min@ == decimal((stats.lists_ttl_secs / 60) as nat)
    &&& d.max_size@ == decimal(stats.max_cache_size as nat)
}

/// A dialog that was opened and not touched can be applied, and asks for what is
/// set already, life times to the minute.
pub proof fn applying_what_is_shown_changes_nothing(d: CacheDiagnosticsDialog, stats: CacheStats)
    requires
        seeded(d, stats),
    ensures
        d.complete(),
        d.in_range(),
        field_number(d.sp_ttl_min@) == Some((stats.service_principal_ttl_secs / 60) as nat),
        field_number(d.perm_ttl_min@) == Some((stats.permissions_ttl_secs / 60) as nat),
        field_number(d.audit_ttl_min@) == Some((stats.audit_ttl_secs / 60) as nat),
        field_number(d.lists_ttl_min@) == Some((stats.lists_ttl_secs / 60) as nat),
        field_number(d.max_size@) == Some(stats.max_cache_size as nat),
{
    a_written_number_reads_back((stats.service_principal_ttl_secs / 60) as nat);
    a_written_number_reads_back((stats.permissions_ttl_secs / 60) as nat);
    a_written_number_reads_back((stats.audit_ttl_secs / 60) as nat);
    a_written_number_reads_back((stats.lists_ttl_secs / 60) as nat);
    a_written_number_reads_back(stats.max_cache_size as nat);
}

/// A pair of counters: hits and misses.
pub fn hits_and_misses(hits: u64, misses: u64) -> (r: String)
    ensures
        r@ == decimal(hits as nat) + " / "@ + decimal(misses as nat),
{
    let mut s = number(hits);
    s.append(" / ");
    s.append(number(misses).as_str());
    s
}

/// A life time, in minutes.
pub fn life_time(secs: u64) -> (r: String)
    ensures
        r@ == decimal((secs / 60) as nat) + " min"@,
{
    let mut s = number(secs / 60);
    s.append(" min");
    s
}

} // verus!
