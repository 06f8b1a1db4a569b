//! The wizard for a new single sign-on application: protocol and name, then the
//! configuration of the protocol, then a review, then what was created.

use crate::session::{is_consent_error, is_text, needs_consent, UiError};
use crate::text::{
    blank, cat3, copy_strings, entry_lines, fitting_number, has_char, is_blank, parse_lines, parse_number, same,
    texts, trim, trimmed, trimmed_or_none, upper, uppercase_of,
};
use vstd::prelude::*;
use vstd::string::*;

verus! {

/// How many notification addresses Entra takes.
pub const MAX_NOTIFICATION_EMAILS: usize = 5;

/// The step that reviews what will be created.
pub const REVIEW_STEP: u8 = 2;

/// The step that shows what was created.
pub const DONE_STEP: u8 = 3;

/// The entries of a text area with one entry per line, blank lines left out.
pub fn lines_to_vec(text: &str) -> (r: Vec<String>)
    ensures
        texts(r@) == entry_lines(text@),
{
    parse_lines(text)
}

/// The first entry that is no mail address: it has no `@`.
pub open spec fn first_bad_email(emails: Seq<Seq<char>>) -> Option<Seq<char>>
    decreases emails.len(),
{
    if emails.len() == 0 {
        None
    } else if !emails[0].contains('@') {
        Some(emails[0])
    } else {
        first_bad_email(emails.drop_first())
    }
}

/// What is wrong with a list of notification addresses, if anything is.
pub open spec fn email_complaint(emails: Seq<Seq<char>>) -> Option<Seq<char>> {
    if emails.len() > MAX_NOTIFICATION_EMAILS {
        Some("Entra allows at most 5 notification email addresses."@)
    } else {
        match first_bad_email(emails) {
            Some(bad) => Some("\""@ + bad + "\" is not a valid email address."@),
            None => None,
        }
    }
}

/// What is wrong with a list of notification addresses, if anything is.
pub fn check_emails(emails: &Vec<String>) -> (r: Option<String>)
    ensures
        r is Some <==> email_complaint(texts(emails@)) is Some,
        r matches Some(t) ==> email_complaint(texts(emails@)) == Some(t@),
{
    if emails.len() > MAX_NOTIFICATION_EMAILS {
        return Some("Entra allows at most 5 notification email addresses.".to_owned());
    }
    let ghost all = texts(emails@);
    proof {
        assert(all.skip(0) =~= all);
    }
    for i in 0..emails.len()
        invariant
            all == texts(emails@),
            all.len() <= MAX_NOTIFICATION_EMAILS,
            first_bad_email(all) == first_bad_email(all.skip(i as int)),
    {
        proof {
            assert(all.skip(i as int)[0] == emails@[i as int]@);
            assert(all.skip(i as int).drop_first() =~= all.skip(i + 1));
        }
        if !has_char(emails[i].as_str(), '@') {
            return Some(cat3("\"", emails[i].as_str(), "\" is not a valid email address."));
        }
    }
    None
}

/// A number of days as it was typed; nothing if it is no whole number, or too
/// large for one.
pub open spec fn days_of(s: Seq<char>) -> Option<nat> {
    match fitting_number(trimmed(s)) {
        Some(n) => if n <= u32::MAX {
            Some(n)
        } else {
            None
        },
        None => None,
    }
}

/// A number of days as it was typed.
pub fn parse_days(s: &str) -> (r: Option<u32>)
    ensures
        r is Some <==> days_of(s@) is Some,
        r matches Some(n) ==> days_of(s@) == Some(n as nat),
        r matches Some(n) ==> fitting_number(trimmed(s@)) == Some(n as nat),
        r is None ==> (fitting_number(trimmed(s@)) matches Some(n) ==> n > 4_294_967_295),
{
    match parse_number(trim(s).as_str()) {
        Some(n) => if n <= 0xffff_ffff {
            Some(n as u32)
        } else {
            None
        },
        None => None,
    }
}

/// What is entered in the wizard.
#[derive(Debug)]
pub struct WizardFields {
    pub protocol: String,
    pub display_name: String,
    pub entity_id: String,
    pub reply_url: String,
    pub logout_url: String,
    pub cert_subject: String,
    pub cert_days: String,
    pub notification_emails: String,
    /// The claims in the editor, each as the text it is sent as.
    pub claims: Vec<String>,
    pub redirect_uris: String,
    pub spa_uris: String,
    pub secret_name: String,
    pub secret_days: String,
}

impl WizardFields {
    /// As the wizard opens: SAML, a certificate for a year, a secret for half a
    /// year, everything else empty.
    pub open spec fn fresh(self) -> bool {
        &&& self.protocol@ == "saml"@
        &&& self.cert_days@ == "365"@
        &&& self.secret_days@ == "180"@
        &&& self.display_name@.len() == 0
        &&& self.entity_id@.len() == 0
        &&& self.reply_url@.len() == 0
        &&& self.logout_url@.len() == 0
        &&& self.cert_subject@.len() == 0
        &&& self.notification_emails@.len() == 0
        &&& self.claims@.len() == 0
        &&& self.redirect_uris@.len() == 0
        &&& self.spa_uris@.len() == 0
        &&& self.secret_name@.len() == 0
    }

    /// The protocol is SAML; anything else is OpenID Connect.
    pub open spec fn is_saml(self) -> bool {
        self.protocol@ == "saml"@
    }

    /// As the wizard opens.
    pub fn new() -> (r: WizardFields)
        ensures
            r.fresh(),
    {
        WizardFields {
            protocol: "saml".to_owned(),
            display_name: String::new(),
            entity_id: String::new(),
            reply_url: String::new(),
            logout_url: String::new(),
            cert_subject: String::new(),
            cert_days: "365".to_owned(),
            notification_emails: String::new(),
            claims: Vec::new(),
            redirect_uris: String::new(),
            spa_uris: String::new(),
            secret_name: String::new(),
            secret_days: "180".to_owned(),
        }
    }

    /// The required fields of the protocol are set: both of SAML's, either of
    /// OpenID Connect's.
    pub open spec fn configured(self) -> bool {
        if self.is_saml() {
            !blank(self.entity_id@) && !blank(self.reply_url@)
        } else {
            !blank(self.redirect_uris@) || !blank(self.spa_uris@)
        }
    }

    /// Whether the required fields of the protocol are set.
    pub fn step1_ready(&self) -> (r: bool)
        ensures
            r == self.configured(),
            self.protocol@ == "saml"@ ==> r == (!blank(self.entity_id@) && !blank(self.reply_url@)),
            self.protocol@ != "saml"@ ==> r == (!blank(self.redirect_uris@) || !blank(
                self.spa_uris@,
            )),
    {
        if same(self.protocol.as_str(), "saml") {
            !is_blank(self.entity_id.as_str()) && !is_blank(self.reply_url.as_str())
        } else {
            !is_blank(self.redirect_uris.as_str()) || !is_blank(self.spa_uris.as_str())
        }
    }

    /// The protocol as the review shows it: in capitals.
    pub fn protocol_label(&self) -> (r: String)
        ensures
            r@ == uppercase_of(self.protocol@),
    {
        upper(self.protocol.as_str())
    }
}

/// A SAML application to create.
#[derive(Debug)]
pub struct SamlSsoConfigInput {
    pub display_name: String,
    pub entity_id: String,
    pub reply_url: String,
    pub logout_url: Option<String>,
    pub cert_subject: Option<String>,
    pub cert_lifetime_days: Option<u32>,
    /// The claims of the editor; nothing if it holds none.
    pub claims_policy: Option<Vec<String>>,
    pub notification_emails: Vec<String>,
}

/// An OpenID Connect application to create.
#[derive(Debug)]
pub struct OidcSsoConfigInput {
    pub display_name: String,
    pub redirect_uris: Vec<String>,
    pub spa_redirect_uris: Vec<String>,
    pub secret_display_name: Option<String>,
    pub secret_lifetime_days: Option<u32>,
}

/// The application to create.
#[derive(Debug)]
pub enum SsoCreate {
    Saml(SamlSsoConfigInput),
    Oidc(OidcSsoConfigInput),
}

/// `t` is what was typed in an optional field: left out if blank.
pub open spec fn optional_entry(t: Option<String>, typed: Seq<char>) -> bool {
    &&& t is None <==> blank(typed)
    &&& t matches Some(x) ==> x@ == trimmed(typed)
}

/// `d` is the number of days that was typed.
pub open spec fn typed_days(d: Option<u32>, typed: Seq<char>) -> bool {
    &&& d is Some <==> days_of(typed) is Some
    &&& d matches Some(n) ==> days_of(typed) == Some(n as nat)
}

/// `i` is the SAML application that was entered.
pub open spec fn entered_saml(f: WizardFields, i: SamlSsoConfigInput) -> bool {
    &&& i.display_name@ == trimmed(f.display_name@)
    &&& i.entity_id@ == trimmed(f.entity_id@)
    &&& i.reply_url@ == trimmed(f.reply_url@)
    &&& optional_entry(i.logout_url, f.logout_url@)
    &&& optional_entry(i.cert_subject, f.cert_subject@)
    &&& typed_days(i.cert_lifetime_days, f.cert_days@)
    &&& i.claims_policy is None <==> f.claims@.len() == 0
    &&& i.claims_policy matches Some(claims) ==> claims@ == f.claims@
    &&& texts(i.notification_emails@) == entry_lines(f.notification_emails@)
}

/// `i` is the OpenID Connect application that was entered.
pub open spec fn entered_oidc(f: WizardFields, i: OidcSsoConfigInput) -> bool {
    &&& i.display_name@ == trimmed(f.display_name@)
    &&& texts(i.redirect_uris@) == entry_lines(f.redirect_uris@)
    &&& texts(i.spa_redirect_uris@) == entry_lines(f.spa_uris@)
    &&& optional_entry(i.secret_display_name, f.secret_name@)
    &&& typed_days(i.secret_lifetime_days, f.secret_days@)
}

/// `c` is the application that was entered.
pub open spec fn entered(f: WizardFields, c: SsoCreate) -> bool {
    match c {
        SsoCreate::Saml(i) => f.is_saml() && entered_saml(f, i),
        SsoCreate::Oidc(i) => !f.is_saml() && entered_oidc(f, i),
    }
}

/// What keeps the application from being created: a bad list of notification
/// addresses, which only SAML has.
pub open spec fn complaint(f: WizardFields) -> Option<Seq<char>> {
    if f.is_saml() {
        email_complaint(entry_lines(f.notification_emails@))
    } else {
        None
    }
}

/// What the buttons at the foot of the wizard do.
#[derive(Clone, Copy, Debug, PartialEq, Eq, Structural)]
pub enum BackButton {
    Cancel,
    Back,
}

/// The wizard. `S` and `O` are the summaries of what was created.
#[derive(Debug)]
pub struct SsoWizardDialog<S, O> {
    pub step: u8,
    pub fields: WizardFields,
    pub busy: bool,
    pub error: Option<String>,
    pub needs_consent: bool,
    pub saml_result: Option<S>,
    pub oidc_result: Option<O>,
}

impl<S, O> SsoWizardDialog<S, O> {
    /// What holds of the wizard at all times: it has four steps, it works only
    /// while it stands on the review, and the last step shows exactly one
    /// summary, no other step any.
    pub open spec fn well_formed(self) -> bool {
        &&& self.step <= DONE_STEP
        &&& self.busy ==> self.step == REVIEW_STEP
        &&& self.step == DONE_STEP <==> (self.saml_result is Some || self.oidc_result is Some)
        &&& !(self.saml_result is Some && self.oidc_result is Some)
    }

    /// As it opens.
    pub open spec fn fresh(self) -> bool {
        &&& self.step == 0
        &&& self.fields.fresh()
        &&& self.error is None
        &&& !self.needs_consent
        &&& self.saml_result is None
        &&& self.oidc_result is None
    }

    /// As it opens.
    pub fn new() -> (r: SsoWizardDialog<S, O>)
        ensures
            r.fresh(),
            !r.busy,
            r.well_formed(),
            r.step == 0 && r.error is None && !r.needs_consent && r.saml_result is None
                && r.oidc_result is None,
            r.fields.protocol@ == "saml"@ && r.fields.cert_days@ == "365"@
                && r.fields.secret_days@ == "180"@,
            r.fields.display_name@.len() == 0 && r.fields.entity_id@.len() == 0
                && r.fields.reply_url@.len() == 0 && r.fields.logout_url@.len() == 0
                && r.fields.cert_subject@.len() == 0 && r.fields.notification_emails@.len() == 0
                && r.fields.claims@.len() == 0 && r.fields.redirect_uris@.len() == 0
                && r.fields.spa_uris@.len() == 0 && r.fields.secret_name@.len() == 0,
    {
        SsoWizardDialog {
            step: 0,
            fields: WizardFields::new(),
            busy: false,
            error: None,
            needs_consent: false,
            saml_result: None,
            oidc_result: None,
        }
    }

    /// Everything entered or created goes.
    pub fn reset(&mut self)
        ensures
            final(self).fresh(),
            final(self).busy == old(self).busy,
            old(self).well_formed() && !old(self).busy ==> final(self).well_formed(),
            final(self).step == 0 && final(self).error is None && !final(self).needs_consent
                && final(self).saml_result is None
                && final(self).oidc_result is None,
            final(self).fields.protocol@ == "saml"@ && final(self).fields.cert_days@ == "365"@
                && final(self).fields.secret_days@ == "180"@,
            final(self).fields.display_name@.len() == 0 && final(self).fields.entity_id@.len() == 0
                && final(self).fields.reply_url@.len() == 0 && final(self).fields.logout_url@.len()
                == 0
                && final(self).fields.cert_subject@.len() == 0
                && final(self).fields.notification_emails@.len() == 0
                && final(self).fields.claims@.len() == 0 && final(self).fields.redirect_uris@.len()
                == 0
                && final(self).fields.spa_uris@.len() == 0 && final(self).fields.secret_name@.len()
                == 0,
    {
        self.step = 0;
        self.fields = WizardFields::new();
        self.error = None;
        self.needs_consent = false;
        self.saml_result = None;
        self.oidc_result = None;
    }

    /// The line that says where the wizard stands.
    pub fn step_title(&self) -> (r: &'static str)
        ensures
            r@ == match self.step {
                0u8 => "Step 1 of 3 — Protocol & name"@,
                1u8 => "Step 2 of 3 — Configuration"@,
                2u8 => "Step 3 of 3 — Review & create"@,
                _ => "Done — configuration summary"@,
            },
    {
        if self.step == 0 {
            "Step 1 of 3 — Protocol & name"
        } else if self.step == 1 {
            "Step 2 of 3 — Configuration"
        } else if self.step == 2 {
            "Step 3 of 3 — Review & create"
        } else {
            "Done — configuration summary"
        }
    }

    /// What the first button does, where it shows: on every step but the last.
    pub fn back_button(&self) -> (r: Option<BackButton>)
        ensures
            r == if self.step == DONE_STEP {
                None
            } else if self.step == 0 {
                Some(BackButton::Cancel)
            } else {
                Some(BackButton::Back)
            },
            r is None <==> self.step == 3,
            r == Some(BackButton::Cancel) <==> self.step == 0,
    {
        if self.step == DONE_STEP {
            None
        } else if self.step == 0 {
            Some(BackButton::Cancel)
        } else {
            Some(BackButton::Back)
        }
    }

    /// The first button. On the first step it resets and closes the wizard;
    /// later it goes one step back. Returns whether to close.
    pub fn back(&mut self) -> (r: bool)
        requires
            old(self).well_formed(),
        ensures
            final(self).well_formed(),
            r == (!old(self).busy && old(self).step == 0),
            r ==> final(self).fresh() && !final(self).busy,
            !r && !old(self).busy && old(self).step != DONE_STEP ==> *final(self) == (
            SsoWizardDialog { step: (old(self).step - 1) as u8, ..*old(self) }),
            old(self).busy || old(self).step == DONE_STEP ==> *final(self) == *old(self),
    {
        if self.busy || self.step == DONE_STEP {
            return false;
        }
        if self.step == 0 {
            self.reset();
            return true;
        }
        self.step = self.step - 1;
        false
    }

    /// "Next" can be used: a name on the first step, the required fields on the
    /// second; the others have none.
    pub open spec fn may_go_on(self) -> bool {
        ||| self.step == 0 && !blank(self.fields.display_name@)
        ||| self.step == 1 && self.fields.configured()
    }

    /// Whether "Next" can be used.
    pub fn can_go_on(&self) -> (r: bool)
        ensures
            r == self.may_go_on(),
            self.step == 0 ==> r == !blank(self.fields.display_name@),
            self.step == 1 && self.fields.protocol@ == "saml"@ ==> r == (!blank(
                self.fields.entity_id@,
            ) && !blank(self.fields.reply_url@)),
            self.step == 1 && self.fields.protocol@ != "saml"@ ==> r == (!blank(
                self.fields.redirect_uris@,
            ) || !blank(self.fields.spa_uris@)),
            self.step > 1 ==> !r,
    {
        (self.step == 0 && !is_blank(self.fields.display_name.as_str())) || (self.step == 1
            && self.fields.step1_ready())
    }

    /// "Next".
    pub fn next(&mut self)
        requires
            old(self).well_formed(),
        ensures
            final(self).well_formed(),
            old(self).may_go_on() ==> *final(self) == (SsoWizardDialog {
                step: (old(self).step + 1) as u8,
                ..*old(self)
            }),
            !old(self).may_go_on() ==> *final(self) == *old(self),
            final(self).step != old(self).step ==> old(self).step == 0 && !blank(
                old(self).fields.display_name@,
            ) || old(self).step == 1,
            old(self).step == 0 && !blank(old(self).fields.display_name@) ==> final(self).step == 1,
            old(self).step == 1 && old(self).fields.protocol@ == "saml"@ ==> (final(self).step == 2
                <==> !blank(old(self).fields.entity_id@) && !blank(old(self).fields.reply_url@)),
            old(self).step == 1 && old(self).fields.protocol@ != "saml"@ ==> (final(self).step == 2
                <==> !blank(old(self).fields.redirect_uris@) || !blank(old(self).fields.spa_uris@)),
    {
        if self.can_go_on() {
            self.step = self.step + 1;
        }
    }

    /// "Done", and closing the wizard: everything goes.
    pub fn close(&mut self)
        requires
            old(self).well_formed(),
        ensures
            final(self).busy == old(self).busy,
            !old(self).busy ==> final(self).fresh() && final(self).well_formed(),
            old(self).busy ==> *final(self) == *old(self),
    {
        if !self.busy {
            self.reset();
        }
    }

    /// "Create" has something to do: the review shows, nothing is under way and
    /// there is a tenant.
    pub open spec fn may_create(self, tenant: Option<String>) -> bool {
        self.step == REVIEW_STEP && !self.busy && tenant is Some
    }

    /// "Create": what to create. A bad list of notification addresses is refused
    /// before anything is sent.
    pub fn run_create(&mut self, tenant: &Option<String>) -> (r: Option<SsoCreate>)
        requires
            old(self).well_formed(),
        ensures
            final(self).well_formed(),
            r is Some <==> old(self).may_create(*tenant) && complaint(old(self).fields) is None,
            r matches Some(c) ==> entered(old(self).fields, c) && *final(self) == (
            SsoWizardDialog { busy: true, error: None, needs_consent: false, ..*old(self) }),
            old(self).may_create(*tenant) && complaint(old(self).fields) is Some ==> is_text(
                final(self).error,
                complaint(old(self).fields)->0,
            ) && *final(self) == (SsoWizardDialog {
                error: final(self).error,
                needs_consent: false,
                ..*old(self)
            }),
            !old(self).may_create(*tenant) ==> *final(self) == *old(self),
            old(self).step != 2 || old(self).busy || tenant is None ==> r is None && *final(self)
                == *old(self),
            old(self).step == 2 && !old(self).busy && tenant is Some && old(self).fields.protocol@
                != "saml"@ ==> r is Some,
            r matches Some(SsoCreate::Saml(i)) ==> old(self).fields.protocol@ == "saml"@
                && i.display_name@
                == trimmed(old(self).fields.display_name@) && i.entity_id@
                == trimmed(old(self).fields.entity_id@)
                && i.reply_url@ == trimmed(old(self).fields.reply_url@) && (i.logout_url is None
                <==> blank(
                old(self).fields.logout_url@,
            )) && (i.logout_url matches Some(t) ==> t@ == trimmed(old(self).fields.logout_url@)) && (
            i.cert_subject is None <==> blank(old(self).fields.cert_subject@)) && (
            i.cert_subject matches Some(t) ==> t@ == trimmed(old(self).fields.cert_subject@)) && (
            i.cert_lifetime_days matches Some(n)
                ==> fitting_number(trimmed(old(self).fields.cert_days@))
                == Some(n as nat)) && (i.cert_lifetime_days is None ==> (
            fitting_number(trimmed(old(self).fields.cert_days@)) matches Some(n) ==> n > u32::MAX))
                && (
            i.claims_policy is None <==> old(self).fields.claims@.len() == 0) && (
            i.claims_policy matches Some(claims) ==> claims@ == old(self).fields.claims@) && texts(
                i.notification_emails@,
            ) == entry_lines(old(self).fields.notification_emails@),
            r matches Some(SsoCreate::Oidc(i)) ==> old(self).fields.protocol@ != "saml"@
                && i.display_name@
                == trimmed(old(self).fields.display_name@) && texts(i.redirect_uris@) == entry_lines(
                old(self).fields.redirect_uris@,
            ) && texts(i.spa_redirect_uris@) == entry_lines(old(self).fields.spa_uris@) && (
            i.secret_display_name is None <==> blank(old(self).fields.secret_name@)) && (
            i.secret_display_name matches Some(t) ==> t@ == trimmed(old(self).fields.secret_name@))
                && (
            i.secret_lifetime_days matches Some(n)
                ==> fitting_number(trimmed(old(self).fields.secret_days@))
                == Some(n as nat)) && (i.secret_lifetime_days is None ==> (
            fitting_number(trimmed(old(self).fields.secret_days@)) matches Some(n) ==> n > u32::MAX)),
    {
        if self.step != REVIEW_STEP || self.busy || tenant.is_none() {
            return None;
        }
        self.error = None;
        self.needs_consent = false;
        let f = &self.fields;
        if same(f.protocol.as_str(), "saml") {
            let emails = lines_to_vec(f.notification_emails.as_str());
            match check_emails(&emails) {
                Some(e) => {
                    self.error = Some(e);
                    return None;
                },
                None => {},
            }
            let input = SamlSsoConfigInput {
                display_name: trim(f.display_name.as_str()),
                entity_id: trim(f.entity_id.as_str()),
                reply_url: trim(f.reply_url.as_str()),
                logout_url: trimmed_or_none(f.logout_url.as_str()),
                cert_subject: trimmed_or_none(f.cert_subject.as_str()),
                cert_lifetime_days: parse_days(f.cert_days.as_str()),
                claims_policy: if f.claims.len() == 0 {
                    None
                } else {
                    Some(copy_strings(&f.claims))
                },
                notification_emails: emails,
            };
            self.busy = true;
            Some(SsoCreate::Saml(input))
        } else {
            let input = OidcSsoConfigInput {
                display_name: trim(f.display_name.as_str()),
                redirect_uris: lines_to_vec(f.redirect_uris.as_str()),
                spa_redirect_uris: lines_to_vec(f.spa_uris.as_str()),
                secret_display_name: trimmed_or_none(f.secret_name.as_str()),
                secret_lifetime_days: parse_days(f.secret_days.as_str()),
            };
            self.busy = true;
            Some(SsoCreate::Oidc(input))
        }
    }

    /// The SAML application has been created, or could not be. Only here can a
    /// consent be missing: the one that claims need. Returns whether something
    /// was created.
    pub fn saml_created(&mut self, outcome: Result<S, UiError>) -> (r: bool)
        requires
            old(self).well_formed(),
            old(self).busy,
        ensures
            final(self).well_formed(),
            r == outcome is Ok,
            outcome is Ok ==> final(self).step == 3,
            outcome is Err ==> final(self).step == old(self).step,
            outcome matches Ok(s) ==> *final(self) == (SsoWizardDialog {
                step: DONE_STEP,
                busy: false,
                saml_result: Some(s),
                ..*old(self)
            }),
            outcome matches Err(e) ==> *final(self) == (SsoWizardDialog {
                busy: false,
                error: Some(e.message),
                needs_consent: old(self).needs_consent || needs_consent(e),
                ..*old(self)
            }),
    {
        self.busy = false;
        match outcome {
            Ok(s) => {
                self.saml_result = Some(s);
                self.step = DONE_STEP;
                true
            },
            Err(e) => {
                if is_consent_error(&e) {
                    self.needs_consent = true;
                }
                self.error = Some(e.message);
                false
            },
        }
    }

    /// The OpenID Connect application has been created, or could not be. Returns
    /// whether something was created.
    pub fn oidc_created(&mut self, outcome: Result<O, UiError>) -> (r: bool)
        requires
            old(self).well_formed(),
            old(self).busy,
        ensures
            final(self).well_formed(),
            r == outcome is Ok,
            outcome is Ok ==> final(self).step == 3,
            outcome is Err ==> final(self).step == old(self).step,
            outcome matches Ok(o) ==> *final(self) == (SsoWizardDialog {
                step: DONE_STEP,
                busy: false,
                oidc_result: Some(o),
                ..*old(self)
            }),
            outcome matches Err(e) ==> *final(self) == (SsoWizardDialog {
                busy: false,
                error: Some(e.message),
                ..*old(self)
            }),
    {
        self.busy = false;
        match outcome {
            Ok(o) => {
                self.oidc_result = Some(o);
                self.step = DONE_STEP;
                true
            },
            Err(e) => {
                self.error = Some(e.message);
                false
            },
        }
    }

    /// "Grant admin consent & retry", which the review offers. Returns whether
    /// the consent is to be asked for.
    pub fn grant_and_retry(&mut self, tenant: &Option<String>) -> (r: bool)
        requires
            old(self).well_formed(),
        ensures
            final(self).well_formed(),
            r == (old(self).may_create(*tenant) && old(self).needs_consent),
            r == (old(self).step == 2 && !old(self).busy && tenant is Some
                && old(self).needs_consent),
            r ==> *final(self) == (SsoWizardDialog { busy: true, error: None, ..*old(self) }),
            !r ==> *final(self) == *old(self),
    {
        if self.step != REVIEW_STEP || !self.needs_consent || self.busy || tenant.is_none() {
            return false;
        }
        self.busy = true;
        self.error = None;
        true
    }

    /// The consent has been given: the creation starts again. Or it has not, and
    /// the offer stays.
    pub fn granted(
        &mut self,
        outcome: Result<(), UiError>,
        tenant: &Option<String>,
    ) -> (r: Option<SsoCreate>)
        requires
            old(self).well_formed(),
            old(self).busy,
        ensures
            final(self).well_formed(),
            outcome matches Err(e) ==> r is None && *final(self) == (SsoWizardDialog {
                busy: false,
                error: Some(e.message),
                ..*old(self)
            }),
            r is Some <==> outcome is Ok && tenant is Some && complaint(old(self).fields) is None,
            r matches Some(c) ==> entered(old(self).fields, c) && *final(self) == (
            SsoWizardDialog { busy: true, error: None, needs_consent: false, ..*old(self) }),
            outcome is Ok && tenant is None ==> *final(self) == (SsoWizardDialog {
                busy: false,
                needs_consent: false,
                ..*old(self)
            }),
            outcome is Ok && tenant is Some && complaint(old(self).fields) is Some ==> is_text(
                final(self).error,
                complaint(old(self).fields)->0,
            ) && *final(self) == (SsoWizardDialog {
                busy: false,
                error: final(self).error,
                needs_consent: false,
                ..*old(self)
            }),
            r matches Some(SsoCreate::Saml(i)) ==> old(self).fields.protocol@ == "saml"@
                && i.display_name@
                == trimmed(old(self).fields.display_name@) && i.entity_id@
                == trimmed(old(self).fields.entity_id@)
                && i.reply_url@ == trimmed(old(self).fields.reply_url@) && (i.logout_url is None
                <==> blank(
                old(self).fields.logout_url@,
            )) && (i.logout_url matches Some(t) ==> t@ == trimmed(old(self).fields.logout_url@)) && (
            i.cert_subject is None <==> blank(old(self).fields.cert_subject@)) && (
            i.cert_subject matches Some(t) ==> t@ == trimmed(old(self).fields.cert_subject@)) && (
            i.cert_lifetime_days matches Some(n)
                ==> fitting_number(trimmed(old(self).fields.cert_days@))
                == Some(n as nat)) && (i.cert_lifetime_days is None ==> (
            fitting_number(trimmed(old(self).fields.cert_days@)) matches Some(n) ==> n > u32::MAX))
                && (
            i.claims_policy is None <==> old(self).fields.claims@.len() == 0) && (
            i.claims_policy matches Some(claims) ==> claims@ == old(self).fields.claims@) && texts(
                i.notification_emails@,
            ) == entry_lines(old(self).fields.notification_emails@),
            r matches Some(SsoCreate::Oidc(i)) ==> old(self).fields.protocol@ != "saml"@
                && i.display_name@
                == trimmed(old(self).fields.display_name@) && texts(i.redirect_uris@) == entry_lines(
                old(self).fields.redirect_uris@,
            ) && texts(i.spa_redirect_uris@) == entry_lines(old(self).fields.spa_uris@) && (
            i.secret_display_name is None <==> blank(old(self).fields.secret_name@)) && (
            i.secret_display_name matches Some(t) ==> t@ == trimmed(old(self).fields.secret_name@))
                && (
            i.secret_lifetime_days matches Some(n)
                ==> fitting_number(trimmed(old(self).fields.secret_days@))
                == Some(n as nat)) && (i.secret_lifetime_days is None ==> (
            fitting_number(trimmed(old(self).fields.secret_days@)) matches Some(n) ==> n > u32::MAX)),
    {
        self.busy = false;
        match outcome {
            Ok(()) => {
                self.needs_consent = false;
                self.run_create(tenant)
            },
            Err(e) => {
                self.error = Some(e.message);
                None
            },
        }
    }
}

/// A list that passes the check has at most five entries, each with an `@`.
pub proof fn accepted_emails_are_addresses(emails: Seq<Seq<char>>)
    requires
        email_complaint(emails) is None,
    ensures
        emails.len() <= MAX_NOTIFICATION_EMAILS,
        forall|k: int| 0 <= k < emails.len() ==> (#[trigger] emails[k]).contains('@'),
{
    lemma_no_bad_email(emails);
}

proof fn lemma_no_bad_email(emails: Seq<Seq<char>>)
    requires
        first_bad_email(emails) is None,
    ensures
        forall|k: int| 0 <= k < emails.len() ==> (#[trigger] emails[k]).contains('@'),
    decreases emails.len(),
{
    if emails.len() > 0 {
        lemma_no_bad_email(emails.drop_first());
        assert forall|k: int| 0 <= k < emails.len() implies (#[trigger] emails[k]).contains(
            '@',
        ) by {
            if k > 0 {
                assert(emails.drop_first()[k - 1] == emails[k]);
            }
        }
    }
}

/// What is sent of a SAML application is what was typed, each field in its own
/// place: two wizards that differ in one field alone send applications that differ
/// in that field alone.
pub proof fn each_saml_field_is_sent_in_its_own_place(
    f: WizardFields,
    g: WizardFields,
    c: SsoCreate,
    d: SsoCreate,
)
    requires
        entered(f, c),
        entered(g, d),
        f.protocol@ == "saml"@,
        g.protocol@ == "saml"@,
    ensures
        c is Saml && d is Saml,
        c->Saml_0.display_name@ == d->Saml_0.display_name@ <==> trimmed(f.display_name@) == trimmed(
            g.display_name@,
        ),
        c->Saml_0.entity_id@ == d->Saml_0.entity_id@ <==> trimmed(f.entity_id@) == trimmed(
            g.entity_id@,
        ),
        c->Saml_0.reply_url@ == d->Saml_0.reply_url@ <==> trimmed(f.reply_url@) == trimmed(
            g.reply_url@,
        ),
        c->Saml_0.reply_url@ == trimmed(f.reply_url@),
        c->Saml_0.entity_id@ == trimmed(f.entity_id@),
        c->Saml_0.display_name@ == trimmed(f.display_name@),
        c->Saml_0.logout_url is None <==> blank(f.logout_url@),
        c->Saml_0.logout_url matches Some(t) ==> t@ == trimmed(f.logout_url@),
        c->Saml_0.cert_subject is None <==> blank(f.cert_subject@),
        c->Saml_0.cert_subject matches Some(t) ==> t@ == trimmed(f.cert_subject@),
        c->Saml_0.cert_lifetime_days matches Some(n) ==> fitting_number(trimmed(f.cert_days@))
            == Some(n as nat),
        f.claims@.len() > 0 ==> c->Saml_0.claims_policy is Some && c->Saml_0.claims_policy->0@
            == f.claims@,
        f.claims@.len() == 0 ==> c->Saml_0.claims_policy is None,
        texts(c->Saml_0.notification_emails@) == entry_lines(f.notification_emails@),
{
}

/// What is sent of an OpenID Connect application is what was typed, each field in
/// its own place.
pub proof fn each_oidc_field_is_sent_in_its_own_place(f: WizardFields, c: SsoCreate)
    requires
        entered(f, c),
        f.protocol@ != "saml"@,
    ensures
        c is Oidc,
        c->Oidc_0.display_name@ == trimmed(f.display_name@),
        texts(c->Oidc_0.redirect_uris@) == entry_lines(f.redirect_uris@),
        texts(c->Oidc_0.spa_redirect_uris@) == entry_lines(f.spa_uris@),
        c->Oidc_0.secret_display_name is None <==> blank(f.secret_name@),
        c->Oidc_0.secret_display_name matches Some(t) ==> t@ == trimmed(f.secret_name@),
        c->Oidc_0.secret_lifetime_days matches Some(n) ==> fitting_number(trimmed(f.secret_days@))
            == Some(n as nat),
{
}

/// A list of notification addresses is refused exactly if it has more than five
/// entries or one without an `@`, and a list of five or fewer is refused over the
/// first such entry. OpenID Connect sends no such list, so nothing is refused there.
pub proof fn a_list_is_refused_over_its_first_bad_entry(f: WizardFields, k: int)
    ensures
        f.protocol@ != "saml"@ ==> complaint(f) is None,
        ({
            let emails = entry_lines(f.notification_emails@);
            f.protocol@ == "saml"@ ==> {
                &&& complaint(f) is None <==> emails.len() <= 5 && forall|j: int|
                    0 <= j < emails.len() ==> (#[trigger] emails[j]).contains('@')
                &&& emails.len() > 5 ==> complaint(f) == Some(
                    "Entra allows at most 5 notification email addresses."@,
                )
                &&& 0 <= k < emails.len() <= 5 && !emails[k].contains('@') && (forall|j: int|
                    0 <= j < k ==> (#[trigger] emails[j]).contains('@')) ==> complaint(f) == Some(
                    "\""@ + emails[k] + "\" is not a valid email address."@,
                )
            }
        }),
{
    let emails = entry_lines(f.notification_emails@);
    if first_bad_email(emails) is None {
        lemma_no_bad_email(emails);
    } else if forall|j: int| 0 <= j < emails.len() ==> (#[trigger] emails[j]).contains('@') {
        lemma_good_emails(emails);
    }
    if 0 <= k < emails.len() && !emails[k].contains('@') && (forall|j: int|
        0 <= j < k ==> (#[trigger] emails[j]).contains('@')) {
        lemma_first_bad_email(emails, k);
    }
}

proof fn lemma_good_emails(emails: Seq<Seq<char>>)
    requires
        forall|k: int| 0 <= k < emails.len() ==> (#[trigger] emails[k]).contains('@'),
    ensures
        first_bad_email(emails) is None,
    decreases emails.len(),
{
    if emails.len() > 0 {
        assert(emails[0].contains('@'));
        lemma_good_emails(emails.drop_first());
    }
}

proof fn lemma_first_bad_email(emails: Seq<Seq<char>>, k: int)
    requires
        0 <= k < emails.len(),
        !emails[k].contains('@'),
        forall|j: int| 0 <= j < k ==> (#[trigger] emails[j]).contains('@'),
    ensures
        first_bad_email(emails) == Some(emails[k]),
    decreases k,
{
    if k > 0 {
        assert(emails[0].contains('@'));
        lemma_first_bad_email(emails.drop_first(), k - 1);
    }
}

} // verus!
