//! The frame of the detail pane: which tab shows first, and deleting the
//! application.

use crate::dialogs::confirm::ConfirmDialog;
use crate::session::{require_tenant, UiError};
use crate::tabs::{restored, EnterpriseTab};
use vstd::prelude::*;
use vstd::string::*;

verus! {

/// The pane while its detail is being loaded.
#[derive(Debug)]
pub struct EnterpriseApplicationDetailPane {
    pub service_principal_id: String,
}

impl EnterpriseApplicationDetailPane {
    /// The tenant to load the detail from, or the error of a load without one.
    pub fn request(&self, tenant: &Option<String>) -> (r: Result<String, UiError>)
        ensures
            r is Ok <==> tenant is Some,
            r matches Ok(t) ==> Some(t) == *tenant,
            r matches Err(e) ==> e.code@ == "no_tenant"@ && e.message@ == "tenant missing"@
                && !e.retryable,
    {
        require_tenant(tenant)
    }
}

/// The pane.
#[derive(Debug)]
pub struct EnterpriseAppPanel {
    pub active_tab: String,
    pub delete_open: bool,
    pub deleting: bool,
    pub delete_error: Option<String>,
}

impl EnterpriseAppPanel {
    /// Opens the pane on the tab that a link asked for, or else on the last one
    /// shown, clamped to a tab that there is. What a link asked for is used once.
    pub fn new(pending: &mut Option<String>, last: &String) -> (r: EnterpriseAppPanel)
        ensures
            *final(pending) is None,
            r.active_tab@ == EnterpriseTab::named(restored(*old(pending), *last)).key(),
            *old(pending) matches Some(t) ==> r.active_tab@ == EnterpriseTab::named(t@).key(),
            *old(pending) is None ==> r.active_tab@ == EnterpriseTab::named(last@).key(),
            !r.delete_open,
            !r.deleting,
            r.delete_error is None,
    {
        let initial = match pending.take() {
            Some(t) => t,
            None => last.clone(),
        };
        let active_tab = EnterpriseTab::from_str(initial.as_str()).value().to_owned();
        EnterpriseAppPanel { active_tab, delete_open: false, deleting: false, delete_error: None }
    }

    /// "Delete" is confirmed. Returns whether to delete; without a tenant only
    /// the last error goes.
    pub fn do_delete(&mut self, tenant: &Option<String>) -> (r: bool)
        ensures
            r == (!old(self).deleting && tenant is Some),
            *final(self) == if old(self).deleting {
                *old(self)
            } else {
                EnterpriseAppPanel { deleting: tenant is Some, delete_error: None, ..*old(self) }
            },
    {
        if self.deleting {
            return false;
        }
        self.delete_error = None;
        if tenant.is_none() {
            return false;
        }
        self.deleting = true;
        true
    }

    /// The application has been deleted, or could not be. After success the pane
    /// is closed and the list is read again; a failure stays in the dialog.
    pub fn deleted(&mut self, outcome: Result<(), UiError>) -> (r: Option<&'static str>)
        ensures
            r is Some <==> outcome is Ok,
            r matches Some(t) ==> t@ == "Enterprise application deleted."@,
            outcome is Ok ==> *final(self) == (EnterpriseAppPanel {
                delete_open: false,
                deleting: false,
                ..*old(self)
            }),
            outcome matches Err(e) ==> *final(self) == (EnterpriseAppPanel {
                deleting: false,
                delete_error: Some(e.message),
                ..*old(self)
            }),
    {
        self.deleting = false;
        match outcome {
            Ok(()) => {
                self.delete_open = false;
                Some("Enterprise application deleted.")
            },
            Err(e) => {
                self.delete_error = Some(e.message);
                None
            },
        }
    }

    /// The question of the pane. An application that another tenant owns asks for
    /// a typed word.
    pub open spec fn question(self, foreign: bool, typed: String, d: ConfirmDialog) -> bool {
        &&& d.open == self.delete_open
        &&& d.busy == self.deleting
        &&& d.require_keyword@ == if foreign {
            "DELETE"@
        } else {
            ""@
        }
        &&& d.typed == typed
    }

    /// The question of the pane.
    pub fn confirm_dialog(&self, foreign: bool, typed: String) -> (r: ConfirmDialog)
        ensures
            self.question(foreign, typed, r),
            r.open == self.delete_open && r.busy == self.deleting && r.typed == typed,
            foreign ==> r.require_keyword@ == "DELETE"@,
            !foreign ==> r.require_keyword@ == ""@,
    {
        ConfirmDialog {
            open: self.delete_open,
            busy: self.deleting,
            require_keyword: if foreign {
                "DELETE"
            } else {
                ""
            },
            typed,
        }
    }
}

/// What the question warns of.
pub fn delete_warning(foreign: bool) -> (r: &'static str)
    ensures
        r@ == if foreign {
            "Delete this service principal? This app is owned outside your tenant (a Microsoft first-party or a foreign-tenant app you consented to). Deleting its service principal removes it from your tenant and can break tenant-wide sign-in or orphan existing consent. Only proceed if you are certain. It can be restored from the Entra admin center within 30 days."@
        } else {
            "Delete this enterprise application's service principal? This removes the app from your tenant — sign-ins stop and its permission/consent grants are revoked immediately. It can be restored from the Entra admin center within 30 days."@
        },
{
    if foreign {
        "Delete this service principal? This app is owned outside your tenant (a Microsoft first-party or a foreign-tenant app you consented to). Deleting its service principal removes it from your tenant and can break tenant-wide sign-in or orphan existing consent. Only proceed if you are certain. It can be restored from the Entra admin center within 30 days."
    } else {
        "Delete this enterprise application's service principal? This removes the app from your tenant — sign-ins stop and its permission/consent grants are revoked immediately. It can be restored from the Entra admin center within 30 days."
    }
}

/// An application that another tenant owns is deleted only by those who typed the
/// word; any other by a plain click.
pub proof fn deleting_a_foreign_app_takes_the_word(
    p: EnterpriseAppPanel,
    foreign: bool,
    typed: String,
    d: ConfirmDialog,
)
    requires
        p.question(foreign, typed, d),
        p.delete_open,
        !p.deleting,
    ensures
        foreign ==> (d.confirmable() <==> typed@ == "DELETE"@),
        !foreign ==> d.confirmable(),
{
    reveal_strlit("DELETE");
    reveal_strlit("");
    assert("DELETE"@.len() == 6);
}

} // verus!
