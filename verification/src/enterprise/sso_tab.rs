//! Single sign-on of an enterprise application: the method, and the fields that
//! the saved method has.

use crate::session::{
    copy_text, is_consent_error, is_text, needs_consent, tell, told, Command, Toast, UiError,
};
use crate::text::{
    blank, cat3, copy_strings, filled_rows, same, texts, to_uris, trim, trimmed, trimmed_or_none,
};
use vstd::prelude::*;
use vstd::string::*;

verus! {

proof fn lemma_modes()
    ensures
        "saml"@ != "oidc"@,
{
    reveal_strlit("saml");
    reveal_strlit("oidc");
    assert("saml"@[0] == 's');
    assert("oidc"@[0] == 'o');
}

/// The configuration as it is saved.
#[derive(Debug)]
pub struct SsoConfig {
    pub sso_mode: Option<String>,
    pub identifier_uris: Vec<String>,
    pub reply_urls: Vec<String>,
    pub logout_url: Option<String>,
    pub notification_emails: Vec<String>,
    pub redirect_uris: Vec<String>,
    pub spa_redirect_uris: Vec<String>,
    /// The claims of the assigned policy, each as the text it is sent as; nothing
    /// where no policy is assigned.
    pub claims_policy: Option<Vec<String>>,
}

impl SsoConfig {
    /// Nothing is configured.
    pub open spec fn is_unset(self) -> bool {
        &&& self.sso_mode is None
        &&& self.identifier_uris@.len() == 0
        &&& self.reply_urls@.len() == 0
        &&& self.logout_url is None
        &&& self.notification_emails@.len() == 0
        &&& self.redirect_uris@.len() == 0
        &&& self.spa_redirect_uris@.len() == 0
        &&& self.claims_policy is None
    }

    /// Nothing is configured.
    pub fn unset() -> (r: SsoConfig)
        ensures
            r.is_unset(),
            r.sso_mode is None && r.logout_url is None && r.claims_policy is None
                && r.identifier_uris@.len() == 0 && r.reply_urls@.len() == 0
                && r.notification_emails@.len() == 0 && r.redirect_uris@.len() == 0
                && r.spa_redirect_uris@.len() == 0,
    {
        SsoConfig {
            sso_mode: None,
            identifier_uris: Vec::new(),
            reply_urls: Vec::new(),
            logout_url: None,
            notification_emails: Vec::new(),
            redirect_uris: Vec::new(),
            spa_redirect_uris: Vec::new(),
            claims_policy: None,
        }
    }

    pub open spec fn saml(self) -> bool {
        is_text(self.sso_mode, "saml"@)
    }

    pub open spec fn oidc(self) -> bool {
        is_text(self.sso_mode, "oidc"@)
    }
}

/// Where the configuration comes from.
#[derive(Debug)]
pub enum SsoContent {
    /// It is read from the tenant.
    Read(String),
    /// There is no tenant to read it from.
    Given(SsoConfig),
}

impl SsoContent {
    /// Where the configuration comes from: without a tenant nothing is configured.
    pub fn of(tenant: &Option<String>) -> (r: SsoContent)
        ensures
            match r {
                SsoContent::Read(t) => *tenant == Some(t),
                SsoContent::Given(cfg) => tenant is None && cfg.is_unset(),
            },
    {
        match tenant {
            Some(t) => SsoContent::Read(t.clone()),
            None => SsoContent::Given(SsoConfig::unset()),
        }
    }
}

/// What a save leaves behind: what to say, and whether the configuration is to be
/// read again.
#[derive(Debug)]
pub struct Saved {
    pub toast: Toast,
    pub reload: bool,
}

/// The claims to send, and the name of their policy.
#[derive(Debug)]
pub struct ClaimsMapping {
    pub name: &'static str,
    pub claims: Vec<String>,
}

/// The SAML addresses to save.
#[derive(Debug)]
pub struct SamlUrls {
    pub identifiers: Vec<String>,
    pub reply_urls: Vec<String>,
    pub logout_url: Option<String>,
}

/// The redirect addresses to save.
#[derive(Debug)]
pub struct OidcUris {
    pub web: Vec<String>,
    pub spa: Vec<String>,
}

/// What the tab shows below the method.
#[derive(Clone, Copy, Debug, PartialEq, Eq, Structural)]
pub enum SsoFields {
    Saml,
    Oidc,
    NotConfigured,
}

/// The editor of a configuration.
#[derive(Debug)]
pub struct SsoEditor {
    pub saved_mode: Option<String>,
    pub selected_mode: String,
    pub identifiers: Vec<String>,
    pub reply_urls: Vec<String>,
    pub logout_url: String,
    pub notification_emails: Vec<String>,
    pub redirect_uris: Vec<String>,
    pub spa_uris: Vec<String>,
    pub cert_subject: String,
    pub rotated_cert: Option<String>,
    /// The claims in the editor, each as the text it is sent as.
    pub claims: Vec<String>,
    pub mode_cmd: Command,
    pub cmd: Command,
    pub needs_consent: bool,
}

impl SsoEditor {
    /// The editor shows the configuration, and nothing has been changed.
    pub open spec fn seeded(self, cfg: SsoConfig) -> bool {
        &&& self.saved_mode == cfg.sso_mode
        &&& self.selected_mode@ == if cfg.saml() {
            "saml"@
        } else if cfg.oidc() {
            "oidc"@
        } else {
            "disabled"@
        }
        &&& self.identifiers@ == cfg.identifier_uris@
        &&& self.reply_urls@ == cfg.reply_urls@
        &&& match cfg.logout_url {
            Some(u) => self.logout_url == u,
            None => self.logout_url@.len() == 0,
        }
        &&& self.notification_emails@ == cfg.notification_emails@
        &&& self.redirect_uris@ == cfg.redirect_uris@
        &&& self.spa_uris@ == cfg.spa_redirect_uris@
        &&& self.cert_subject@.len() == 0
        &&& self.rotated_cert is None
        &&& match cfg.claims_policy {
            Some(claims) => self.claims@ == claims@,
            None => self.claims@.len() == 0,
        }
        &&& !self.mode_cmd.busy
        &&& self.mode_cmd.error is None
        &&& !self.cmd.busy
        &&& self.cmd.error is None
        &&& !self.needs_consent
    }

    /// The editor of a saved configuration.
    pub fn new(cfg: &SsoConfig) -> (r: SsoEditor)
        ensures
            r.seeded(*cfg),
            r.saved_mode == cfg.sso_mode,
            cfg.sso_mode matches Some(m) ==> (m@ == "saml"@ || m@ == "oidc"@ ==> r.selected_mode@
                == m@),
            (cfg.sso_mode matches Some(m) ==> m@ != "saml"@ && m@ != "oidc"@) ==> r.selected_mode@
                == "disabled"@,
            r.identifiers@ == cfg.identifier_uris@,
            r.reply_urls@ == cfg.reply_urls@,
            cfg.logout_url matches Some(u) ==> r.logout_url == u,
            cfg.logout_url is None ==> r.logout_url@.len() == 0,
            r.notification_emails@ == cfg.notification_emails@,
            r.redirect_uris@ == cfg.redirect_uris@,
            r.spa_uris@ == cfg.spa_redirect_uris@,
            r.cert_subject@.len() == 0,
            r.rotated_cert is None,
            cfg.claims_policy matches Some(claims) ==> r.claims@ == claims@,
            cfg.claims_policy is None ==> r.claims@.len() == 0,
            !r.mode_cmd.busy && r.mode_cmd.error is None && !r.cmd.busy && r.cmd.error is None
                && !r.needs_consent,
    {
        SsoEditor {
            saved_mode: copy_text(&cfg.sso_mode),
            selected_mode: match &cfg.sso_mode {
                Some(m) if same(m.as_str(), "saml") => "saml".to_owned(),
                Some(m) if same(m.as_str(), "oidc") => "oidc".to_owned(),
                _ => "disabled".to_owned(),
            },
            identifiers: copy_strings(&cfg.identifier_uris),
            reply_urls: copy_strings(&cfg.reply_urls),
            logout_url: match &cfg.logout_url {
                Some(u) => u.clone(),
                None => String::new(),
            },
            notification_emails: copy_strings(&cfg.notification_emails),
            redirect_uris: copy_strings(&cfg.redirect_uris),
            spa_uris: copy_strings(&cfg.spa_redirect_uris),
            cert_subject: String::new(),
            rotated_cert: None,
            claims: match &cfg.claims_policy {
                Some(claims) => copy_strings(claims),
                None => Vec::new(),
            },
            mode_cmd: Command::new(),
            cmd: Command::new(),
            needs_consent: false,
        }
    }

    /// The fields of the saved method; the selected one has no say before it is
    /// applied.
    pub open spec fn shown_fields(self) -> SsoFields {
        if is_text(self.saved_mode, "saml"@) {
            SsoFields::Saml
        } else if is_text(self.saved_mode, "oidc"@) {
            SsoFields::Oidc
        } else {
            SsoFields::NotConfigured
        }
    }

    /// Which fields show.
    pub fn fields(&self) -> (r: SsoFields)
        ensures
            r == self.shown_fields(),
            r is Saml <==> self.saved_mode is Some && self.saved_mode->0@ == "saml"@,
            r is Oidc <==> self.saved_mode is Some && self.saved_mode->0@ == "oidc"@,
    {
        proof {
            lemma_modes();
        }
        match &self.saved_mode {
            Some(m) if same(m.as_str(), "saml") => SsoFields::Saml,
            Some(m) if same(m.as_str(), "oidc") => SsoFields::Oidc,
            _ => SsoFields::NotConfigured,
        }
    }

    /// The saved method in words.
    pub fn saved_mode_label(&self) -> (r: String)
        ensures
            r@ == match self.saved_mode {
                Some(m) => m@,
                None => "not configured"@,
            },
    {
        match &self.saved_mode {
            Some(m) => m.clone(),
            None => "not configured".to_owned(),
        }
    }

    /// The protocol whose summary is to be read; none before single sign-on is
    /// configured.
    pub fn summary_protocol(&self) -> (r: Option<&'static str>)
        ensures
            r is None <==> self.shown_fields() is NotConfigured,
            r matches Some(p) ==> p@ == if self.shown_fields() is Oidc {
                "oidc"@
            } else {
                "saml"@
            },
            r is Some <==> self.saved_mode is Some && (self.saved_mode->0@ == "saml"@
                || self.saved_mode->0@ == "oidc"@),
            r matches Some(p) ==> p@ == self.saved_mode->0@,
    {
        match self.fields() {
            SsoFields::Saml => Some("saml"),
            SsoFields::Oidc => Some("oidc"),
            SsoFields::NotConfigured => None,
        }
    }

    /// "Apply method": the method to set.
    pub fn apply_mode(&mut self, tenant: &Option<String>) -> (r: Option<String>)
        ensures
            r == if old(self).mode_cmd.ready(*tenant) {
                Some(old(self).selected_mode)
            } else {
                None
            },
            r is Some ==> *final(self) == (SsoEditor {
                mode_cmd: Command { busy: true, error: None },
                ..*old(self)
            }),
            r is None ==> *final(self) == *old(self),
    {
        if self.mode_cmd.start(tenant) {
            Some(self.selected_mode.clone())
        } else {
            None
        }
    }

    /// The method has been set, or could not be. On success the configuration is
    /// read again.
    pub fn mode_applied(&mut self, outcome: Result<(), UiError>) -> (r: Saved)
        ensures
            told(r.toast, outcome, "Single sign-on method updated."@),
            r.reload == outcome is Ok,
            *final(self) == (SsoEditor {
                mode_cmd: Command { busy: false, ..old(self).mode_cmd },
                ..*old(self)
            }),
    {
        self.mode_cmd.finish(None);
        let reload = outcome.is_ok();
        Saved { toast: tell(outcome, "Single sign-on method updated."), reload }
    }

    /// "Save SAML URLs": what to save. Blank rows and a blank logout address are
    /// left out.
    pub fn save_saml_urls(&mut self, tenant: &Option<String>) -> (r: Option<SamlUrls>)
        ensures
            r is Some <==> old(self).cmd.ready(*tenant),
            r matches Some(u) ==> {
                &&& texts(u.identifiers@) == filled_rows(texts(old(self).identifiers@))
                &&& texts(u.reply_urls@) == filled_rows(texts(old(self).reply_urls@))
                &&& u.logout_url is None <==> blank(old(self).logout_url@)
                &&& u.logout_url matches Some(l) ==> l@ == trimmed(old(self).logout_url@)
                &&& *final(self) == (SsoEditor {
                    cmd: Command { busy: true, error: None },
                    ..*old(self)
                })
            },
            r is None ==> *final(self) == *old(self),
    {
        if !self.cmd.start(tenant) {
            return None;
        }
        Some(
            SamlUrls {
                identifiers: to_uris(&self.identifiers),
                reply_urls: to_uris(&self.reply_urls),
                logout_url: trimmed_or_none(self.logout_url.as_str()),
            },
        )
    }

    /// "Save redirect URIs": what to save.
    pub fn save_oidc_uris(&mut self, tenant: &Option<String>) -> (r: Option<OidcUris>)
        ensures
            r is Some <==> old(self).cmd.ready(*tenant),
            r matches Some(u) ==> {
                &&& texts(u.web@) == filled_rows(texts(old(self).redirect_uris@))
                &&& texts(u.spa@) == filled_rows(texts(old(self).spa_uris@))
                &&& *final(self) == (SsoEditor {
                    cmd: Command { busy: true, error: None },
                    ..*old(self)
                })
            },
            r is None ==> *final(self) == *old(self),
    {
        if !self.cmd.start(tenant) {
            return None;
        }
        Some(OidcUris { web: to_uris(&self.redirect_uris), spa: to_uris(&self.spa_uris) })
    }

    /// "Save notification emails": what to save.
    pub fn save_notification_emails(&mut self, tenant: &Option<String>) -> (r: Option<Vec<String>>)
        ensures
            r is Some <==> old(self).cmd.ready(*tenant),
            r matches Some(v) ==> texts(v@) == filled_rows(texts(old(self).notification_emails@))
                && *final(self) == (SsoEditor {
                cmd: Command { busy: true, error: None },
                ..*old(self)
            }),
            r is None ==> *final(self) == *old(self),
    {
        if !self.cmd.start(tenant) {
            return None;
        }
        Some(to_uris(&self.notification_emails))
    }

    /// "Generate new signing certificate": its subject.
    pub fn rotate_cert(&mut self, tenant: &Option<String>) -> (r: Option<String>)
        ensures
            r is Some <==> old(self).cmd.ready(*tenant),
            r matches Some(s) ==> s@ == trimmed(old(self).cert_subject@) && *final(self) == (
            SsoEditor { cmd: Command { busy: true, error: None }, ..*old(self) }),
            r is None ==> *final(self) == *old(self),
    {
        if !self.cmd.start(tenant) {
            return None;
        }
        Some(trim(self.cert_subject.as_str()))
    }

    /// The certificate has been made, with this thumbprint and, where it is
    /// known, this content; or it could not be. On success the configuration is
    /// read again.
    pub fn cert_rotated(&mut self, outcome: Result<(String, Option<String>), UiError>) -> (r:
        Saved)
        ensures
            r.reload == outcome is Ok,
            outcome matches Ok((thumbprint, content)) ==> r.toast.reports(
                "New signing certificate: "@ + thumbprint@,
            ) && *final(self) == (SsoEditor {
                cmd: Command { busy: false, ..old(self).cmd },
                rotated_cert: content,
                ..*old(self)
            }),
            outcome matches Err(e) ==> r.toast == Toast::Failure(e.message) && *final(self) == (
            SsoEditor { cmd: Command { busy: false, ..old(self).cmd }, ..*old(self) }),
    {
        self.cmd.finish(None);
        match outcome {
            Ok((thumbprint, content)) => {
                self.rotated_cert = content;
                let s = cat3("New signing certificate: ", thumbprint.as_str(), "");
                proof {
                    reveal_strlit("");
                    assert(s@ =~= "New signing certificate: "@ + thumbprint@);
                }
                Saved { toast: Toast::Success(s), reload: true }
            },
            Err(e) => Saved { toast: Toast::Failure(e.message), reload: false },
        }
    }

    /// Something has been saved, or could not be. `again` says whether the
    /// configuration is read again on success.
    fn saved(&mut self, outcome: Result<(), UiError>, words: &str, again: bool) -> (r: Saved)
        ensures
            told(r.toast, outcome, words@),
            r.reload == (again && outcome is Ok),
            *final(self) == (SsoEditor {
                cmd: Command { busy: false, ..old(self).cmd },
                ..*old(self)
            }),
    {
        self.cmd.finish(None);
        let reload = again && outcome.is_ok();
        Saved { toast: tell(outcome, words), reload }
    }

    /// The SAML addresses have been saved, or could not be. On success the
    /// configuration is read again.
    pub fn saml_urls_saved(&mut self, outcome: Result<(), UiError>) -> (r: Saved)
        ensures
            told(r.toast, outcome, "SAML configuration saved."@),
            r.reload == outcome is Ok,
            *final(self) == (SsoEditor {
                cmd: Command { busy: false, ..old(self).cmd },
                ..*old(self)
            }),
    {
        self.saved(outcome, "SAML configuration saved.", true)
    }

    /// The redirect addresses have been saved, or could not be. On success the
    /// configuration is read again.
    pub fn oidc_uris_saved(&mut self, outcome: Result<(), UiError>) -> (r: Saved)
        ensures
            told(r.toast, outcome, "Redirect URIs saved."@),
            r.reload == outcome is Ok,
            *final(self) == (SsoEditor {
                cmd: Command { busy: false, ..old(self).cmd },
                ..*old(self)
            }),
    {
        self.saved(outcome, "Redirect URIs saved.", true)
    }

    /// The addresses have been saved, or could not be. The configuration is not
    /// read again: that would throw away what is being edited beside them.
    pub fn notification_emails_saved(&mut self, outcome: Result<(), UiError>) -> (r: Saved)
        ensures
            told(r.toast, outcome, "Notification emails saved."@),
            !r.reload,
            *final(self) == (SsoEditor {
                cmd: Command { busy: false, ..old(self).cmd },
                ..*old(self)
            }),
    {
        self.saved(outcome, "Notification emails saved.", false)
    }

    /// "Save claims": what to send. The offer to grant consent goes even where
    /// nothing is sent.
    pub fn save_claims(&mut self, tenant: &Option<String>) -> (r: Option<ClaimsMapping>)
        ensures
            r is Some <==> old(self).cmd.ready(*tenant),
            r matches Some(m) ==> m.name@ == "Custom claims"@ && m.claims@ == old(self).claims@,
            *final(self) == (SsoEditor {
                needs_consent: false,
                cmd: if r is Some {
                    Command { busy: true, error: None }
                } else {
                    old(self).cmd
                },
                ..*old(self)
            }),
    {
        self.needs_consent = false;
        if !self.cmd.start(tenant) {
            return None;
        }
        Some(ClaimsMapping { name: "Custom claims", claims: copy_strings(&self.claims) })
    }

    /// The claims have been saved, or could not be. Where a consent is missing,
    /// granting it is offered. On success the configuration is read again.
    pub fn claims_saved(&mut self, outcome: Result<(), UiError>) -> (r: Saved)
        ensures
            told(r.toast, outcome, "Attributes & claims saved."@),
            r.reload == outcome is Ok,
            *final(self) == (SsoEditor {
                cmd: Command { busy: false, ..old(self).cmd },
                needs_consent: old(self).needs_consent || (outcome is Err && needs_consent(
                    outcome->Err_0,
                )),
                ..*old(self)
            }),
            final(self).needs_consent == (old(self).needs_consent || (outcome is Err
                && outcome->Err_0.code@ == "consent_required"@)),
    {
        match &outcome {
            Ok(_) => {},
            Err(e) => {
                if is_consent_error(e) {
                    self.needs_consent = true;
                }
            },
        }
        self.saved(outcome, "Attributes & claims saved.", true)
    }

    /// "Grant admin consent". Returns whether to ask for it.
    pub fn grant_consent(&mut self, tenant: &Option<String>) -> (r: bool)
        ensures
            r == old(self).cmd.ready(*tenant),
            r ==> *final(self) == (SsoEditor {
                cmd: Command { busy: true, error: None },
                ..*old(self)
            }),
            !r ==> *final(self) == *old(self),
    {
        self.cmd.start(tenant)
    }

    /// Consent has been given, or not. Nothing is sent again by itself.
    pub fn consent_granted(&mut self, outcome: Result<(), UiError>) -> (r: Saved)
        ensures
            told(r.toast, outcome, "Consent granted. Save again to apply your claims."@),
            !r.reload,
            *final(self) == (SsoEditor {
                cmd: Command { busy: false, ..old(self).cmd },
                needs_consent: old(self).needs_consent && outcome is Err,
                ..*old(self)
            }),
    {
        match &outcome {
            Ok(_) => {
                self.needs_consent = false;
            },
            Err(_) => {},
        }
        self.saved(outcome, "Consent granted. Save again to apply your claims.", false)
    }
}

/// Choosing another method changes nothing that shows before it is applied.
pub proof fn a_choice_shows_nothing_new(e: SsoEditor, mode: String)
    ensures
        (SsoEditor { selected_mode: mode, ..e }).shown_fields() == e.shown_fields(),
{
}

} // verus!
