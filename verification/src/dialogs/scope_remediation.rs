//! Confining access that reaches the whole organisation: mailboxes to groups,
//! SharePoint to sites.

use crate::session::{is_consent_error, is_text, needs_consent, UiError};
use crate::text::{count, decimal, entry_lines, parse_lines, texts};
use vstd::prelude::*;
use vstd::string::*;

verus! {

/// The principal that is to be confined. An app registration is looked up by
/// the backend; a principal without one brings its own ids.
#[derive(Clone, Debug, PartialEq)]
pub enum ScopeFixTarget {
    AppReg { object_id: String },
    ServicePrincipal { sp_object_id: String, app_id: String, display_name: String },
}

impl ScopeFixTarget {
    /// The id of the audit row that the fix belongs to.
    pub open spec fn row(self) -> Seq<char> {
        match self {
            ScopeFixTarget::AppReg { object_id } => object_id@,
            ScopeFixTarget::ServicePrincipal { sp_object_id, .. } => sp_object_id@,
        }
    }

    /// The id of the audit row that the fix belongs to.
    pub fn row_id(&self) -> (r: String)
        ensures
            r@ == self.row(),
            self matches ScopeFixTarget::AppReg { object_id } ==> r@ == object_id@,
            self matches ScopeFixTarget::ServicePrincipal { sp_object_id, .. } ==> r@
                == sp_object_id@,
    {
        match self {
            ScopeFixTarget::AppReg { object_id } => object_id.clone(),
            ScopeFixTarget::ServicePrincipal { sp_object_id, .. } => sp_object_id.clone(),
        }
    }
}

/// "Scope mailbox access".
#[derive(Debug)]
pub struct ScopeMailboxButton {
    pub open: bool,
    pub busy: bool,
    pub error: Option<String>,
    pub groups_text: String,
}

impl ScopeMailboxButton {
    /// Closed, with nothing entered.
    pub fn new() -> (r: ScopeMailboxButton)
        ensures
            !r.open,
            !r.busy,
            r.error is None,
            r.groups_text@.len() == 0,
    {
        ScopeMailboxButton { open: false, busy: false, error: None, groups_text: String::new() }
    }

    /// Confirms the fix. It needs a group, and a tenant; while it is under way
    /// nothing happens. Returns the groups to confine the access to.
    pub fn confirm(&mut self, tenant: &Option<String>) -> (r: Option<Vec<String>>)
        ensures
            r is Some <==> !old(self).busy && entry_lines(old(self).groups_text@).len() > 0
                && tenant is Some,
            r matches Some(groups) ==> texts(groups@) == entry_lines(old(self).groups_text@)
                && *final(self) == (ScopeMailboxButton { busy: true, error: None, ..*old(self) }),
            !old(self).busy && entry_lines(old(self).groups_text@).len() == 0 ==> is_text(
                final(self).error,
                "Enter at least one mail-enabled group (one per line)."@,
            ) && *final(self) == (ScopeMailboxButton { error: final(self).error, ..*old(self) }),
            old(self).busy || (entry_lines(old(self).groups_text@).len() > 0 && tenant is None)
                ==> *final(self) == *old(self),
    {
        if self.busy {
            return None;
        }
        let groups = parse_lines(self.groups_text.as_str());
        proof {
            assert(texts(groups@).len() == groups@.len());
        }
        if groups.len() == 0 {
            self.error = Some("Enter at least one mail-enabled group (one per line).".to_owned());
            return None;
        }
        if tenant.is_none() {
            return None;
        }
        self.busy = true;
        self.error = None;
        Some(groups)
    }

    /// The fix has been applied, with that many grants removed and warnings
    /// given, or it failed. Returns what to say on success.
    pub fn finished(&mut self, outcome: Result<(usize, usize), UiError>) -> (r: Option<String>)
        ensures
            r is Some <==> outcome is Ok,
            outcome matches Ok(n) ==> r->0@ == "Scoped mailbox access — removed "@ + decimal(
                n.0 as nat,
            ) + " org-wide grant(s)"@ + (if n.1 == 0 {
                ""@
            } else {
                " ("@ + decimal(n.1 as nat) + " warning(s))"@
            }) + ". Re-run the audit to refresh scores."@,
            outcome matches Ok(n) ==> r->0@ == mailbox_line(n.0 as nat, n.1 as nat)
                && *final(self) == (ScopeMailboxButton { open: false, busy: false, ..*old(self) }),
            outcome matches Err(e) ==> *final(self) == (ScopeMailboxButton {
                busy: false,
                error: Some(e.message),
                ..*old(self)
            }),
    {
        self.busy = false;
        match outcome {
            Ok((removed, warnings)) => {
                self.open = false;
                Some(mailbox_message(removed, warnings))
            },
            Err(e) => {
                self.error = Some(e.message);
                None
            },
        }
    }
}

/// What is said after mailbox access was confined.
pub open spec fn mailbox_line(removed: nat, warnings: nat) -> Seq<char> {
    "Scoped mailbox access — removed "@ + decimal(removed) + " org-wide grant(s)"@ + (if warnings
        == 0 {
        ""@
    } else {
        " ("@ + decimal(warnings) + " warning(s))"@
    }) + ". Re-run the audit to refresh scores."@
}

fn mailbox_message(removed: usize, warnings: usize) -> (r: String)
    ensures
        r@ == mailbox_line(removed as nat, warnings as nat),
{
    let mut s = "Scoped mailbox access — removed ".to_owned();
    s.append(count(removed).as_str());
    s.append(" org-wide grant(s)");
    if warnings == 0 {
        s.append("");
    } else {
        let mut w = " (".to_owned();
        w.append(count(warnings).as_str());
        w.append(" warning(s))");
        s.append(w.as_str());
    }
    s.append(". Re-run the audit to refresh scores.");
    s
}

/// "Restrict SharePoint access".
#[derive(Debug)]
pub struct ScopeSharePointButton {
    pub open: bool,
    pub busy: bool,
    pub error: Option<String>,
    /// The last attempt lacked a consent: the dialog offers to give it.
    pub needs_consent: bool,
    pub sites_text: String,
}

/// The sites to grant access to, and the role to grant.
#[derive(Debug)]
pub struct SiteGrant {
    pub site_urls: Vec<String>,
    pub role: &'static str,
}

impl ScopeSharePointButton {
    /// Closed, with nothing entered.
    pub fn new() -> (r: ScopeSharePointButton)
        ensures
            !r.open,
            !r.busy,
            r.error is None,
            !r.needs_consent,
            r.sites_text@.len() == 0,
    {
        ScopeSharePointButton {
            open: false,
            busy: false,
            error: None,
            needs_consent: false,
            sites_text: String::new(),
        }
    }

    /// Confirms the fix, for reading or for writing. It needs a site, and a
    /// tenant; while it is under way nothing happens.
    pub fn scope(&mut self, write: bool, tenant: &Option<String>) -> (r: Option<SiteGrant>)
        ensures
            r is Some <==> !old(self).busy && entry_lines(old(self).sites_text@).len() > 0
                && tenant is Some,
            r matches Some(g) ==> texts(g.site_urls@) == entry_lines(old(self).sites_text@)
                && g.role@ == (if write {
                "write"@
            } else {
                "read"@
            }) && *final(self) == (ScopeSharePointButton {
                busy: true,
                error: None,
                ..*old(self)
            }),
            !old(self).busy && entry_lines(old(self).sites_text@).len() == 0 ==> is_text(
                final(self).error,
                "Enter at least one site URL (one per line)."@,
            ) && *final(self) == (ScopeSharePointButton { error: final(self).error, ..*old(self) }),
            old(self).busy || (entry_lines(old(self).sites_text@).len() > 0 && tenant is None)
                ==> *final(self) == *old(self),
    {
        if self.busy {
            return None;
        }
        let site_urls = parse_lines(self.sites_text.as_str());
        proof {
            assert(texts(site_urls@).len() == site_urls@.len());
        }
        if site_urls.len() == 0 {
            self.error = Some("Enter at least one site URL (one per line).".to_owned());
            return None;
        }
        if tenant.is_none() {
            return None;
        }
        self.busy = true;
        self.error = None;
        let role = if write {
            "write"
        } else {
            "read"
        };
        Some(SiteGrant { site_urls, role })
    }

    /// The fix has been applied to that many sites, with that many grants
    /// removed, or it failed. A missing consent is asked for. Returns what to
    /// say on success.
    pub fn finished(&mut self, outcome: Result<(usize, usize), UiError>) -> (r: Option<String>)
        ensures
            r is Some <==> outcome is Ok,
            outcome matches Ok(n) ==> r->0@ == "Restricted SharePoint access to "@ + decimal(
                n.0 as nat,
            ) + " site(s) — removed "@ + decimal(n.1 as nat)
                + " org-wide grant(s). Re-run the audit to refresh scores."@,
            outcome matches Err(e) ==> final(self).needs_consent == (old(self).needs_consent
                || e.code@ == "consent_required"@),
            outcome matches Ok(n) ==> r->0@ == sharepoint_line(n.0 as nat, n.1 as nat)
                && *final(self) == (ScopeSharePointButton {
                open: false,
                busy: false,
                needs_consent: false,
                ..*old(self)
            }),
            outcome matches Err(e) ==> if needs_consent(e) {
                is_text(
                    final(self).error,
                    "Granting per-site access needs the SharePoint admin scope (Sites.FullControl.All). Grant consent, then try again."@,
                ) && *final(self) == (ScopeSharePointButton {
                    busy: false,
                    needs_consent: true,
                    error: final(self).error,
                    ..*old(self)
                })
            } else {
                *final(self) == (ScopeSharePointButton {
                    busy: false,
                    error: Some(e.message),
                    ..*old(self)
                })
            },
    {
        self.busy = false;
        match outcome {
            Ok((sites, removed)) => {
                self.open = false;
                self.needs_consent = false;
                Some(sharepoint_message(sites, removed))
            },
            Err(e) => {
                if is_consent_error(&e) {
                    self.needs_consent = true;
                    self.error = Some(
                        "Granting per-site access needs the SharePoint admin scope (Sites.FullControl.All). Grant consent, then try again.".to_owned(),
                    );
                } else {
                    self.error = Some(e.message);
                }
                None
            },
        }
    }

    /// Asks for the consent. Returns whether to ask.
    pub fn grant_consent(&mut self, tenant: &Option<String>) -> (r: bool)
        ensures
            r == (!old(self).busy && tenant is Some),
            r ==> *final(self) == (ScopeSharePointButton { busy: true, error: None, ..*old(self) }),
            !r ==> *final(self) == *old(self),
    {
        if self.busy || tenant.is_none() {
            return false;
        }
        self.busy = true;
        self.error = None;
        true
    }

    /// The consent has been given or refused.
    pub fn consent_finished(&mut self, outcome: Result<(), UiError>)
        ensures
            outcome is Ok ==> *final(self) == (ScopeSharePointButton {
                busy: false,
                needs_consent: false,
                ..*old(self)
            }),
            outcome matches Err(e) ==> *final(self) == (ScopeSharePointButton {
                busy: false,
                error: Some(e.message),
                ..*old(self)
            }),
    {
        self.busy = false;
        match outcome {
            Ok(()) => {
                self.needs_consent = false;
            },
            Err(e) => {
                self.error = Some(e.message);
            },
        }
    }
}

/// What is said after SharePoint access was restricted.
pub open spec fn sharepoint_line(sites: nat, removed: nat) -> Seq<char> {
    "Restricted SharePoint access to "@ + decimal(sites) + " site(s) — removed "@ + decimal(removed)
        + " org-wide grant(s). Re-run the audit to refresh scores."@
}

fn sharepoint_message(sites: usize, removed: usize) -> (r: String)
    ensures
        r@ == sharepoint_line(sites as nat, removed as nat),
{
    let mut s = "Restricted SharePoint access to ".to_owned();
    s.append(count(sites).as_str());
    s.append(" site(s) — removed ");
    s.append(count(removed).as_str());
    s.append(" org-wide grant(s). Re-run the audit to refresh scores.");
    s
}

} // verus!
