//! The detail pane of an app registration.

use crate::session::{require_tenant, Command, UiError};
use crate::tabs::{restored, AppTab};
use vstd::prelude::*;

verus! {

/// The pane.
#[derive(Debug)]
pub struct ApplicationDetailPane {
    pub active_tab: String,
    pub refreshing: bool,
    pub delete_open: bool,
    pub delete: Command,
}

impl ApplicationDetailPane {
    /// Opens the pane on the tab that a link asked for, or else on the last one
    /// shown, clamped to a tab that there is. What a link asked for is used once.
    pub fn new(pending: &mut Option<String>, last: &String) -> (r: ApplicationDetailPane)
        ensures
            *final(pending) is None,
            r.active_tab@ == AppTab::named(restored(*old(pending), *last)).key(),
            *old(pending) matches Some(t) ==> r.active_tab@ == AppTab::named(t@).key(),
            *old(pending) is None ==> r.active_tab@ == AppTab::named(last@).key(),
            !r.refreshing,
            !r.delete_open,
            !r.delete.busy,
            r.delete.error is None,
    {
        let initial = match pending.take() {
            Some(t) => t,
            None => last.clone(),
        };
        let active_tab = AppTab::from_str(initial.as_str()).value().to_owned();
        ApplicationDetailPane {
            active_tab,
            refreshing: false,
            delete_open: false,
            delete: Command::new(),
        }
    }

    /// The tenant to load the detail from, or the error of a load without one.
    pub fn request(tenant: &Option<String>) -> (r: Result<String, UiError>)
        ensures
            r is Ok <==> tenant is Some,
            r matches Ok(t) ==> Some(t) == *tenant,
            r matches Err(e) ==> e.code@ == "no_tenant"@ && e.message@ == "tenant missing"@
                && !e.retryable,
    {
        require_tenant(tenant)
    }

    /// "Refresh". Returns whether to drop what the backend has kept and load
    /// again.
    pub fn on_refresh(&mut self, tenant: &Option<String>) -> (r: bool)
        ensures
            r == (!old(self).refreshing && tenant is Some),
            *final(self) == (ApplicationDetailPane {
                refreshing: old(self).refreshing || r,
                ..*old(self)
            }),
    {
        if self.refreshing || tenant.is_none() {
            return false;
        }
        self.refreshing = true;
        true
    }

    /// The backend has dropped what it kept, or could not: either way the pane
    /// loads again.
    pub fn refreshed(&mut self)
        ensures
            *final(self) == (ApplicationDetailPane { refreshing: false, ..*old(self) }),
    {
        self.refreshing = false;
    }

    /// "Delete" is confirmed. Returns whether to delete.
    pub fn do_delete(&mut self, tenant: &Option<String>) -> (r: bool)
        ensures
            r == old(self).delete.ready(*tenant),
            r == (!old(self).delete.busy && tenant is Some),
            r ==> *final(self) == (ApplicationDetailPane {
                delete: Command { busy: true, error: None },
                ..*old(self)
            }),
            !r ==> *final(self) == *old(self),
    {
        self.delete.start(tenant)
    }

    /// The app has been deleted: the pane closes. Or it could not be, and the
    /// question says why. Returns what to say on success.
    pub fn deleted(&mut self, outcome: Result<(), UiError>) -> (r: Option<&'static str>)
        ensures
            r is Some <==> outcome is Ok,
            r matches Some(t) ==> t@ == "Application deleted."@,
            outcome is Ok ==> *final(self) == (ApplicationDetailPane {
                delete_open: false,
                delete: Command { busy: false, ..old(self).delete },
                ..*old(self)
            }),
            outcome matches Err(e) ==> *final(self) == (ApplicationDetailPane {
                delete: Command { busy: false, error: Some(e.message) },
                ..*old(self)
            }),
    {
        match outcome {
            Ok(()) => {
                self.delete.finish(None);
                self.delete_open = false;
                Some("Application deleted.")
            },
            Err(e) => {
                self.delete.finish(Some(e.message));
                None
            },
        }
    }
}

} // verus!
