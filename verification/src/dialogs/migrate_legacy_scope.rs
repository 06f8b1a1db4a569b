//! Moving mailbox access from a deprecated policy to the current model. The
//! plan comes first: nothing is changed before it has been read.

use crate::session::UiError;
use crate::text::same;
use vstd::prelude::*;

verus! {

/// What a plan or a migration reports: the status of each item, and how many
/// could not be dealt with.
#[derive(Debug)]
pub struct MigrationReport {
    pub statuses: Vec<String>,
    pub failures: usize,
}

/// Every item has been migrated, there is one at least, and nothing failed.
pub open spec fn clean(r: MigrationReport) -> bool {
    &&& r.failures == 0
    &&& r.statuses@.len() > 0
    &&& forall|k: int| 0 <= k < r.statuses@.len() ==> (#[trigger] r.statuses@[k])@ == "migrated"@
}

fn is_clean(r: &MigrationReport) -> (b: bool)
    ensures
        b == clean(*r),
{
    if r.failures > 0 || r.statuses.len() == 0 {
        return false;
    }
    for k in 0..r.statuses.len()
        invariant
            forall|j: int| 0 <= j < k ==> (#[trigger] r.statuses@[j])@ == "migrated"@,
    {
        if !same(r.statuses[k].as_str(), "migrated") {
            assert(r.statuses@[k as int]@ != "migrated"@);
            return false;
        }
    }
    true
}

/// The migration dialog.
#[derive(Debug)]
pub struct MigrateLegacyScopeButton {
    pub open: bool,
    pub busy: bool,
    pub error: Option<String>,
    pub report: Option<MigrationReport>,
}

impl MigrateLegacyScopeButton {
    /// Closed.
    pub fn new() -> (r: MigrateLegacyScopeButton)
        ensures
            !r.open,
            !r.busy,
            r.error is None,
            r.report is None,
    {
        MigrateLegacyScopeButton { open: false, busy: false, error: None, report: None }
    }

    /// The migration can be committed: nothing under way, and a report has been
    /// read.
    pub open spec fn committable(self) -> bool {
        !self.busy && self.report is Some
    }

    /// Whether "Migrate" can be used.
    pub fn can_migrate(&self) -> (r: bool)
        ensures
            r == self.committable(),
            r == (!self.busy && self.report is Some),
    {
        !self.busy && self.report.is_some()
    }

    /// Starts a plan or a migration, unless one is under way or there is no
    /// tenant. Returns whether it is to be started.
    pub fn run(&mut self, tenant: &Option<String>) -> (r: bool)
        ensures
            r == (!old(self).busy && tenant is Some),
            r ==> *final(self) == (MigrateLegacyScopeButton {
                busy: true,
                error: None,
                report: None,
                ..*old(self)
            }),
            !r ==> *final(self) == *old(self),
    {
        if self.busy || tenant.is_none() {
            return false;
        }
        self.busy = true;
        self.error = None;
        self.report = None;
        true
    }

    /// Opens the dialog and starts the plan. Returns whether it is to be
    /// started.
    pub fn show(&mut self, tenant: &Option<String>) -> (r: bool)
        ensures
            r == (!old(self).busy && tenant is Some),
            final(self).open,
            r ==> *final(self) == (MigrateLegacyScopeButton {
                open: true,
                busy: true,
                error: None,
                report: None,
            }),
            !r ==> *final(self) == (MigrateLegacyScopeButton { open: true, ..*old(self) }),
    {
        self.open = true;
        self.run(tenant)
    }

    /// The plan or the migration has ended. Only a migration that left nothing
    /// behind closes the dialog; anything else is shown. Returns whether the
    /// row's fix is to be taken away.
    pub fn finished(&mut self, dry_run: bool, outcome: Result<MigrationReport, UiError>) -> (r:
        bool)
        ensures
            r == (!dry_run && outcome is Ok && clean(outcome->Ok_0)),
            r <==> !dry_run && outcome is Ok && outcome->Ok_0.failures == 0
                && outcome->Ok_0.statuses@.len() > 0 && forall|k: int|
                0 <= k < outcome->Ok_0.statuses@.len() ==> (
                #[trigger] outcome->Ok_0.statuses@[k])@ == "migrated"@,
            r ==> *final(self) == (MigrateLegacyScopeButton {
                open: false,
                busy: false,
                ..*old(self)
            }),
            outcome matches Ok(report) ==> !r ==> *final(self) == (MigrateLegacyScopeButton {
                busy: false,
                report: Some(report),
                ..*old(self)
            }),
            outcome matches Err(e) ==> *final(self) == (MigrateLegacyScopeButton {
                busy: false,
                error: Some(e.message),
                ..*old(self)
            }),
    {
        self.busy = false;
        match outcome {
            Ok(report) => {
                if !dry_run && is_clean(&report) {
                    self.open = false;
                    true
                } else {
                    self.report = Some(report);
                    false
                }
            },
            Err(e) => {
                self.error = Some(e.message);
                false
            },
        }
    }
}

} // verus!
