//! The ids of the application and of the tenant: entered on the first run, and
//! changed in the settings.

use crate::session::UiError;
use crate::text::{blank, is_blank, same, trim, trimmed};
use vstd::prelude::*;
use vstd::string::*;

verus! {

/// The step that helps with an error, by its code.
pub open spec fn hint_for(code: Seq<char>) -> Seq<char> {
    if code == "invalid_client_id"@ {
        "The Application (client) ID must be a GUID — copy it from the app registration's Overview page in the Entra portal."@
    } else if code == "invalid_tenant_id"@ {
        "The Directory (tenant) ID must be a GUID or a domain like contoso.onmicrosoft.com — copy it from the registration's Overview page."@
    } else if code == "io"@ {
        "Couldn't write settings.json — check that the app's config folder is writable (not blocked by permissions or disk space), then retry."@
    } else {
        "Double-check the IDs and try again."@
    }
}

proof fn lemma_codes()
    ensures
        "invalid_client_id"@ != "invalid_tenant_id"@,
        "invalid_client_id"@ != "io"@,
        "invalid_tenant_id"@ != "io"@,
{
    reveal_strlit("invalid_client_id");
    reveal_strlit("invalid_tenant_id");
    reveal_strlit("io");
    assert("invalid_client_id"@[8] == 'c');
    assert("invalid_tenant_id"@[8] == 't');
    assert("invalid_client_id"@.len() == 17);
    assert("invalid_tenant_id"@.len() == 17);
    assert("io"@.len() == 2);
}

/// The step that helps with an error, by its code.
pub fn config_error_hint(code: &str) -> (r: &'static str)
    ensures
        r@ == hint_for(code@),
        code@ == "invalid_client_id"@ ==> r@
            == "The Application (client) ID must be a GUID — copy it from the app registration's Overview page in the Entra portal."@,
        code@ == "invalid_tenant_id"@ ==> r@
            == "The Directory (tenant) ID must be a GUID or a domain like contoso.onmicrosoft.com — copy it from the registration's Overview page."@,
        code@ == "io"@ ==> r@
            == "Couldn't write settings.json — check that the app's config folder is writable (not blocked by permissions or disk space), then retry."@,
        code@ != "invalid_client_id"@ && code@ != "invalid_tenant_id"@ && code@ != "io"@ ==> r@
            == "Double-check the IDs and try again."@,
{
    proof {
        lemma_codes();
    }
    if same(code, "invalid_client_id") {
        "The Application (client) ID must be a GUID — copy it from the app registration's Overview page in the Entra portal."
    } else if same(code, "invalid_tenant_id") {
        "The Directory (tenant) ID must be a GUID or a domain like contoso.onmicrosoft.com — copy it from the registration's Overview page."
    } else if same(code, "io") {
        "Couldn't write settings.json — check that the app's config folder is writable (not blocked by permissions or disk space), then retry."
    } else {
        "Double-check the IDs and try again."
    }
}

/// The ids to save.
#[derive(Debug)]
pub struct AuthIds {
    pub client_id: String,
    pub tenant_id: String,
}

/// The form. Saving restarts the application; where that would end a session,
/// it asks first.
#[derive(Debug)]
pub struct AuthConfigForm {
    pub client_id: String,
    pub tenant_id: String,
    pub confirm_restart: bool,
    pub busy: bool,
    pub confirming: bool,
    pub error: Option<ConfigError>,
}

/// What went wrong, and the step that helps.
#[derive(Debug)]
pub struct ConfigError {
    pub message: String,
    pub hint: &'static str,
}

/// The form of the first run, with the ids that are known already. There is no
/// session to interrupt, so it does not ask.
#[allow(non_snake_case)]
pub fn ConfigScreen(client_id: String, tenant_id: String) -> (r: AuthConfigForm)
    ensures
        r == (AuthConfigForm {
            client_id,
            tenant_id,
            confirm_restart: false,
            busy: false,
            confirming: false,
            error: None,
        }),
{
    AuthConfigForm::new(client_id, tenant_id, false)
}

impl AuthConfigForm {
    /// What holds at all times: it asks only where it is to ask.
    pub open spec fn well_formed(self) -> bool {
        self.confirming ==> self.confirm_restart
    }

    /// The form as it opens.
    pub fn new(client_id: String, tenant_id: String, confirm_restart: bool) -> (r: AuthConfigForm)
        ensures
            r.well_formed(),
            r == (AuthConfigForm {
                client_id,
                tenant_id,
                confirm_restart,
                busy: false,
                confirming: false,
                error: None,
            }),
    {
        AuthConfigForm {
            client_id,
            tenant_id,
            confirm_restart,
            busy: false,
            confirming: false,
            error: None,
        }
    }

    /// `ids` are the ids that were entered, without their outer white space.
    pub open spec fn entered(self, ids: AuthIds) -> bool {
        ids.client_id@ == trimmed(self.client_id@) && ids.tenant_id@ == trimmed(self.tenant_id@)
    }

    /// Both ids are entered.
    pub open spec fn complete(self) -> bool {
        !blank(self.client_id@) && !blank(self.tenant_id@)
    }

    /// Starts saving.
    fn save(&mut self) -> (r: AuthIds)
        ensures
            old(self).entered(r),
            *final(self) == (AuthConfigForm { busy: true, error: None, ..*old(self) }),
    {
        self.busy = true;
        self.error = None;
        AuthIds {
            client_id: trim(self.client_id.as_str()),
            tenant_id: trim(self.tenant_id.as_str()),
        }
    }

    /// "Save & restart": what to save, at once or after the question.
    pub fn on_submit(&mut self) -> (r: Option<AuthIds>)
        requires
            old(self).well_formed(),
        ensures
            final(self).well_formed(),
            r is Some <==> !old(self).busy && old(self).complete() && !old(self).confirm_restart,
            r matches Some(ids) ==> old(self).entered(ids) && *final(self) == (AuthConfigForm {
                busy: true,
                error: None,
                ..*old(self)
            }),
            old(self).busy ==> *final(self) == *old(self),
            !old(self).busy && !old(self).complete() ==> {
                &&& final(self).error is Some
                &&& final(self).error->0.message@
                    == "Enter both the Application (client) ID and Directory (tenant) ID."@
                &&& final(self).error->0.hint@
                    == "Both are on the app registration's Overview page in the Entra portal."@
                &&& *final(self) == (AuthConfigForm { error: final(self).error, ..*old(self) })
            },
            !old(self).busy && old(self).complete() && old(self).confirm_restart ==> *final(self)
                == (AuthConfigForm { confirming: true, ..*old(self) }),
            r matches Some(ids) ==> ids.client_id@ == trimmed(old(self).client_id@)
                && ids.tenant_id@ == trimmed(old(self).tenant_id@),
            r is Some <==> !old(self).busy && !blank(old(self).client_id@) && !blank(
                old(self).tenant_id@,
            ) && !old(self).confirm_restart,
            !old(self).busy && (blank(old(self).client_id@) || blank(old(self).tenant_id@))
                ==> final(self).error is Some && final(self).confirming == old(self).confirming,
            !old(self).busy && !blank(old(self).client_id@) && !blank(old(self).tenant_id@) && old(
                self).confirm_restart ==> final(self).confirming,
    {
        if self.busy {
            return None;
        }
        if is_blank(self.client_id.as_str()) || is_blank(self.tenant_id.as_str()) {
            self.error = Some(
                ConfigError {
                    message:
                        "Enter both the Application (client) ID and Directory (tenant) ID.".to_owned(),
                    hint: "Both are on the app registration's Overview page in the Entra portal.",
                },
            );
            return None;
        }
        if self.confirm_restart {
            self.confirming = true;
            return None;
        }
        Some(self.save())
    }

    /// The question is answered: what to save.
    pub fn confirm(&mut self) -> (r: Option<AuthIds>)
        requires
            old(self).well_formed(),
        ensures
            final(self).well_formed(),
            r is Some <==> old(self).confirming && !old(self).busy,
            r matches Some(ids) ==> old(self).entered(ids) && *final(self) == (AuthConfigForm {
                busy: true,
                error: None,
                ..*old(self)
            }),
            r is None ==> *final(self) == *old(self),
            r matches Some(ids) ==> ids.client_id@ == trimmed(old(self).client_id@)
                && ids.tenant_id@ == trimmed(old(self).tenant_id@),
    {
        if !self.confirming || self.busy {
            return None;
        }
        Some(self.save())
    }

    /// The ids could not be saved. The question goes: what is wrong is fixed in
    /// the fields behind it. (A save that works restarts the application.)
    pub fn refused(&mut self, e: UiError)
        requires
            old(self).well_formed(),
        ensures
            final(self).well_formed(),
            final(self).error is Some,
            final(self).error->0.message == e.message,
            final(self).error->0.hint@ == hint_for(e.code@),
            *final(self) == (AuthConfigForm {
                confirming: false,
                busy: false,
                error: final(self).error,
                ..*old(self)
            }),
    {
        self.confirming = false;
        let hint = config_error_hint(e.code.as_str());
        self.error = Some(ConfigError { message: e.message, hint });
        self.busy = false;
    }

    /// The tenant that the question names.
    pub fn subject(&self) -> (r: String)
        ensures
            r@ == trimmed(self.tenant_id@),
    {
        trim(self.tenant_id.as_str())
    }
}

/// What is saved is what was entered, each id in its own place: forms that differ in
/// one id alone save ids that differ in that one alone.
pub proof fn each_id_is_saved_in_its_own_place(
    f: AuthConfigForm,
    g: AuthConfigForm,
    a: AuthIds,
    b: AuthIds,
)
    requires
        f.entered(a),
        g.entered(b),
    ensures
        a.client_id@ == b.client_id@ <==> trimmed(f.client_id@) == trimmed(g.client_id@),
        a.tenant_id@ == b.tenant_id@ <==> trimmed(f.tenant_id@) == trimmed(g.tenant_id@),
        a.client_id@ == trimmed(f.client_id@),
        a.tenant_id@ == trimmed(f.tenant_id@),
{
}

} // verus!
