use azapptoolkit_views::dialogs::sso_wizard::{
    check_emails, lines_to_vec, parse_days, BackButton, SsoCreate, SsoWizardDialog,
};
use azapptoolkit_views::session::UiError;

type Wizard = SsoWizardDialog<String, u8>;

fn tenant() -> Option<String> {
    Some("tenant".into())
}

fn error(code: &str) -> UiError {
    UiError { code: code.into(), message: "it broke".into(), retryable: false }
}

fn at_review(protocol: &str) -> Wizard {
    let mut w = Wizard::new();
    w.fields.protocol = protocol.into();
    w.fields.display_name = " App ".into();
    w.next();
    w.fields.entity_id = " urn:x ".into();
    w.fields.reply_url = "https://x/acs".into();
    w.fields.redirect_uris = "https://x\n\nhttps://y".into();
    w.next();
    assert_eq!(w.step, 2);
    w
}

#[test]
fn lines_become_entries() {
    assert_eq!(lines_to_vec(" a \n\n b"), vec!["a".to_string(), "b".into()]);
}

#[test]
fn notification_addresses_are_checked() {
    let v = |n: usize| vec!["a@x".to_string(); n];
    assert_eq!(check_emails(&v(5)), None);
    assert_eq!(
        check_emails(&v(6)).unwrap(),
        "Entra allows at most 5 notification email addresses."
    );
    let bad = vec!["a@x".to_string(), "first".into(), "second".into()];
    assert_eq!(check_emails(&bad).unwrap(), "\"first\" is not a valid email address.");
}

#[test]
fn days_that_are_no_number_are_left_out() {
    assert_eq!(parse_days(" 365 "), Some(365));
    assert_eq!(parse_days("a year"), None);
    assert_eq!(parse_days("4294967295"), Some(u32::MAX));
    assert_eq!(parse_days("4294967296"), None);
}

#[test]
fn a_step_waits_for_its_fields() {
    let mut w = Wizard::new();
    assert_eq!(w.step_title(), "Step 1 of 3 — Protocol & name");
    assert_eq!(w.back_button(), Some(BackButton::Cancel));
    w.next();
    assert_eq!(w.step, 0);
    w.fields.display_name = "App".into();
    w.next();
    assert_eq!(w.step, 1);
    assert_eq!(w.back_button(), Some(BackButton::Back));
    w.fields.entity_id = "urn:x".into();
    w.next();
    assert_eq!(w.step, 1);
    w.fields.reply_url = "https://x".into();
    w.next();
    assert_eq!(w.step_title(), "Step 3 of 3 — Review & create");
    w.next();
    assert_eq!(w.step, 2);
    assert!(!w.back());
    assert_eq!(w.step, 1);
    w.fields.protocol = "oidc".into();
    assert!(!w.can_go_on());
    w.fields.spa_uris = "https://spa".into();
    assert!(w.can_go_on());
    w.back();
    assert!(w.back());
    assert!(w.fields.display_name.is_empty());
    assert_eq!(w.fields.cert_days, "365");
    assert_eq!(w.fields.secret_days, "180");
}

#[test]
fn a_saml_application_is_sent_trimmed() {
    let mut w = at_review("saml");
    w.fields.notification_emails = "a@x\nb@x".into();
    w.fields.logout_url = "  ".into();
    w.fields.cert_subject = " CN=x ".into();
    w.fields.claims = vec!["claim".into()];
    assert_eq!(w.fields.protocol_label(), "SAML");
    assert!(w.run_create(&None).is_none());
    match w.run_create(&tenant()).unwrap() {
        SsoCreate::Saml(i) => {
            assert_eq!(i.display_name, "App");
            assert_eq!(i.entity_id, "urn:x");
            assert_eq!(i.logout_url, None);
            assert_eq!(i.cert_subject.as_deref(), Some("CN=x"));
            assert_eq!(i.cert_lifetime_days, Some(365));
            assert_eq!(i.claims_policy, Some(vec!["claim".to_string()]));
            assert_eq!(i.notification_emails.len(), 2);
        }
        other => panic!("{other:?}"),
    }
    assert!(w.run_create(&tenant()).is_none());
    assert!(w.saml_created(Ok("done".into())));
    assert_eq!(w.step_title(), "Done — configuration summary");
    assert_eq!(w.back_button(), None);
    assert!(!w.back());
    w.close();
    assert_eq!(w.step, 0);
    assert!(w.fields.claims.is_empty());
    assert!(w.saml_result.is_none());
}

#[test]
fn a_bad_address_is_refused_before_anything_is_sent() {
    let mut w = at_review("saml");
    w.fields.notification_emails = "nobody".into();
    assert!(w.run_create(&tenant()).is_none());
    assert!(!w.busy);
    assert_eq!(w.error.as_deref(), Some("\"nobody\" is not a valid email address."));
    // The other protocol has no such field.
    w.fields.protocol = "oidc".into();
    assert!(w.run_create(&tenant()).is_some());
}

#[test]
fn an_oidc_application_lists_its_addresses() {
    let mut w = at_review("oidc");
    assert_eq!(w.fields.protocol_label(), "OIDC");
    match w.run_create(&tenant()).unwrap() {
        SsoCreate::Oidc(i) => {
            assert_eq!(i.redirect_uris, vec!["https://x".to_string(), "https://y".into()]);
            assert!(i.spa_redirect_uris.is_empty());
            assert_eq!(i.secret_display_name, None);
            assert_eq!(i.secret_lifetime_days, Some(180));
        }
        other => panic!("{other:?}"),
    }
    assert!(!w.oidc_created(Err(error("consent_required"))));
    assert!(!w.needs_consent);
    assert_eq!(w.step, 2);
    w.run_create(&tenant());
    assert!(w.oidc_created(Ok(7)));
    assert_eq!(w.oidc_result, Some(7));
}

#[test]
fn a_missing_consent_is_asked_for_and_the_creation_tried_again() {
    let mut w = at_review("saml");
    assert!(!w.grant_and_retry(&tenant()));
    match w.run_create(&tenant()).unwrap() {
        SsoCreate::Saml(i) => assert_eq!(i.claims_policy, None),
        other => panic!("{other:?}"),
    }
    assert!(!w.saml_created(Err(error("consent_required"))));
    assert!(w.needs_consent);
    assert!(w.grant_and_retry(&tenant()));
    assert!(w.granted(Err(error("denied")), &tenant()).is_none());
    assert!(w.needs_consent && !w.busy);
    assert!(w.grant_and_retry(&tenant()));
    assert!(w.granted(Ok(()), &tenant()).is_some());
    assert!(w.busy && !w.needs_consent);
}
