use azapptoolkit_views::dialogs::add_owner::{
    candidates, missing_owners, AddOwnerButton, OwnerCandidates, OwnerRef, OwnerRun,
};
use azapptoolkit_views::dialogs::cache_diagnostics::{
    hits_and_misses, life_time, CacheDiagnosticsDialog, CacheStats,
};
use azapptoolkit_views::dialogs::cert_payload::{base64_text, cert_payload_from_bytes};
use azapptoolkit_views::dialogs::confirm::{
    expired_message, redundant_message, ConfirmDialog, FixDialog,
};
use azapptoolkit_views::dialogs::create_app::CreateAppDialog;
use azapptoolkit_views::dialogs::gallery::{
    listing, modes_line, ApplicationTemplate, GalleryDialog, GalleryListing, GallerySearchResults,
};
use azapptoolkit_views::dialogs::migrate_legacy_scope::{MigrateLegacyScopeButton, MigrationReport};
use azapptoolkit_views::dialogs::new_app_chooser::{NewAppChoice, NewAppChooserDialog};
use azapptoolkit_views::dialogs::scope_remediation::{
    ScopeFixTarget, ScopeMailboxButton, ScopeSharePointButton,
};
use azapptoolkit_views::dialogs::secret_reveal::SecretRevealDialog;
use azapptoolkit_views::dialogs::upload_certificate::{file_stem, UploadCertificateDialog};
use azapptoolkit_views::enterprise::owners::DirectoryUser;
use azapptoolkit_views::session::{directory_query, UiError};

fn tenant() -> Option<String> {
    Some("tenant".into())
}

fn error(code: &str) -> UiError {
    UiError { code: code.into(), message: "it broke".into(), retryable: false }
}

fn strings(v: &[&str]) -> Vec<String> {
    v.iter().map(|s| s.to_string()).collect()
}

fn owner(id: &str, name: Option<&str>) -> OwnerRef {
    OwnerRef { id: id.into(), display_name: name.map(String::from) }
}

#[test]
fn only_missing_default_owners_are_added() {
    let owners = vec![owner("1", None), owner("2", Some("Bo")), owner("3", None)];
    assert_eq!(missing_owners(&owners, &strings(&["2"])), vec![0, 2]);
    assert_eq!(missing_owners(&owners, &strings(&[])), vec![0, 1, 2]);
}

#[test]
fn failed_default_owners_keep_the_dialog_open() {
    let mut d = AddOwnerButton::new();
    d.open = true;
    assert!(!d.add_defaults(&None));
    assert!(d.add_defaults(&tenant()));
    assert!(!d.add(&tenant()));
    assert!(!d.can_close());
    let mut run = OwnerRun::new();
    run.note(&owner("1", None), Ok(()));
    run.note(&owner("2", Some("Bo")), Err(error("x")));
    run.note(&owner("3", None), Err(error("x")));
    assert_eq!(run.added + run.failures.len(), 3);
    assert_eq!(d.defaults_finished(&run), None);
    assert!(d.open && !d.adding_defaults);
    assert_eq!(
        d.error.as_deref(),
        Some("2 default owner(s) failed — Bo: it broke; 3: it broke")
    );
    assert!(d.add_defaults(&tenant()));
    let mut fine = OwnerRun::new();
    fine.note(&owner("2", None), Ok(()));
    assert_eq!(
        d.defaults_finished(&fine).unwrap(),
        "Added 1 default owner(s) — re-run the audit to refresh the ownership finding."
    );
    assert!(!d.open);
    assert_eq!(
        d.defaults_finished(&OwnerRun::new()).unwrap(),
        "Default owners are already present — re-run the audit to refresh."
    );
}

#[test]
fn without_default_owners_there_is_nothing_to_add() {
    let mut d = AddOwnerButton::new();
    assert!(d.add_defaults(&tenant()));
    assert!(!d.defaults_found(&vec![]));
    assert!(!d.adding_defaults);
    assert_eq!(
        d.error.as_deref(),
        Some("No default owners configured — set them in Settings.")
    );
    assert!(d.add_defaults(&tenant()));
    assert!(d.defaults_found(&vec![owner("1", None)]));
    assert!(AddOwnerButton::searches("ab", &tenant()));
    assert!(!AddOwnerButton::searches("a", &tenant()));
    assert!(!AddOwnerButton::searches("ab", &None));
    assert_eq!(AddOwnerButton::search_text(" ab ", &tenant()).as_deref(), Some("ab"));
    assert_eq!(AddOwnerButton::search_text(" a ", &tenant()), None);
    assert_eq!(AddOwnerButton::search_text("ab", &None), None);
    // Bytes, not characters.
    assert_eq!(directory_query(" é ", &tenant()).as_deref(), Some("é"));
}

#[test]
fn a_picked_owner_closes_the_dialog() {
    let mut d = AddOwnerButton::new();
    d.open = true;
    d.raw_query = "bo".into();
    assert!(d.add(&tenant()));
    assert!(!d.add_finished(Err(error("x"))));
    assert!(d.open);
    assert_eq!(d.error.as_deref(), Some("it broke"));
    assert!(d.add(&tenant()));
    assert!(d.add_finished(Ok(())));
    assert!(!d.open && d.raw_query.is_empty());
}

fn stats() -> CacheStats {
    CacheStats {
        enabled: true,
        service_principal_ttl_secs: 630,
        permissions_ttl_secs: 60,
        audit_ttl_secs: 3_600,
        lists_ttl_secs: 0,
        max_cache_size: 500,
    }
}

#[test]
fn the_cache_form_asks_for_what_it_shows() {
    let mut d = CacheDiagnosticsDialog::new();
    assert!(d.toggled());
    d.opened(stats());
    assert!(!d.toggled());
    assert_eq!(d.sp_ttl_min, "10");
    let c = d.try_apply_config().unwrap().unwrap();
    assert_eq!(c.service_principal_ttl_secs, 600);
    assert_eq!(c.permissions_ttl_secs, 60);
    assert_eq!(c.audit_ttl_secs, 3_600);
    assert_eq!(c.lists_ttl_secs, 0);
    assert_eq!(c.max_cache_size, 500);
}

#[test]
fn the_cache_form_wants_whole_numbers() {
    let mut d = CacheDiagnosticsDialog::new();
    d.opened(stats());
    d.lists_ttl_min = " 15 ".into();
    assert_eq!(d.apply_config().unwrap().lists_ttl_secs, 900);
    d.max_size = "many".into();
    assert_eq!(d.try_apply_config().unwrap(), None);
    assert_eq!(d.config_error.as_deref(), Some("Enter whole numbers for all fields."));
    d.max_size = "10".into();
    d.audit_ttl_min = u64::MAX.to_string();
    assert!(!d.is_in_range());
    assert!(d.try_apply_config().is_err());
    d.refused(error("x"));
    assert_eq!(d.config_error.as_deref(), Some("it broke"));
    assert_eq!(hits_and_misses(3, 40), "3 / 40");
    assert_eq!(life_time(150), "2 min");
}

#[test]
fn a_confirmation_may_ask_for_a_word() {
    let mut d = ConfirmDialog {
        open: true,
        busy: false,
        require_keyword: "DELETE",
        typed: String::new(),
    };
    assert!(!d.can_confirm());
    d.typed = "DELETE".into();
    assert!(d.can_confirm());
    d.busy = true;
    assert!(!d.can_confirm() && !d.can_close());
    let mut f = FixDialog::new();
    f.show();
    assert!(!f.confirm(&None));
    assert!(f.confirm(&tenant()));
    assert!(!f.finished(Err(error("x"))));
    assert!(f.open);
    assert!(f.confirm(&tenant()));
    assert!(f.finished(Ok(())));
    assert!(!f.open);
}

#[test]
fn fixes_say_what_they_did() {
    assert_eq!(
        expired_message(1, 0),
        "Removed 1 expired credential — re-run the audit to refresh scores."
    );
    assert_eq!(
        expired_message(1, 2),
        "Removed 3 expired credentials — re-run the audit to refresh scores."
    );
    assert_eq!(
        redundant_message(1, &strings(&["A", "B"])),
        "Removed 1 redundant permission; skipped A, B (covering grant no longer present) — re-run the audit to refresh scores."
    );
    assert_eq!(
        redundant_message(2, &strings(&[])),
        "Removed 2 redundant permissions — re-run the audit to refresh scores."
    );
}

#[test]
fn a_new_app_leaves_its_blank_description_out() {
    let mut d = CreateAppDialog::new();
    assert!(d.name_missing() && !d.can_create());
    d.display_name = "  My app ".into();
    d.description = "  ".into();
    assert!(d.can_create());
    assert!(d.create(&None).is_none());
    let i = d.create(&tenant()).unwrap();
    assert_eq!(i.display_name, "My app");
    assert_eq!(i.sign_in_audience.as_deref(), Some("AzureADMyOrg"));
    assert_eq!(i.description, None);
    assert!(i.create_service_principal);
    assert!(d.create(&tenant()).is_none());
    assert!(!d.finished(Err(error("x"))));
    assert_eq!(d.display_name, "  My app ");
    d.create(&tenant());
    assert!(d.finished(Ok(())));
    assert!(d.display_name.is_empty());
}

fn template() -> ApplicationTemplate {
    ApplicationTemplate {
        id: "t1".into(),
        display_name: "Salesforce".into(),
        publisher: None,
        supported_single_sign_on_modes: strings(&["saml", "password"]),
    }
}

#[test]
fn the_gallery_counts_characters() {
    assert!(GalleryDialog::searches("ab", &tenant()));
    assert!(GalleryDialog::searches(" 越南 ", &tenant()));
    assert!(!GalleryDialog::searches("越", &tenant()));
    assert!(!GalleryDialog::searches("ab", &None));
    assert_eq!(GalleryDialog::search_text(" 越南 ", &tenant()).as_deref(), Some("越南"));
    assert_eq!(GalleryDialog::search_text(" 越 ", &tenant()), None);
    assert_eq!(GalleryDialog::search_text("ab", &None), None);
}

#[test]
fn a_picked_template_suggests_its_name() {
    let mut d = GalleryDialog::new();
    assert!(d.create(&tenant()).is_none());
    d.pick(&template());
    assert_eq!(d.name, "Salesforce");
    d.name = " Sales ".into();
    let c = d.create(&tenant()).unwrap();
    assert_eq!((c.template_id.as_str(), c.display_name.as_str()), ("t1", "Sales"));
    assert!(!d.can_create());
    assert!(!d.finished(Err(error("x"))));
    assert_eq!(d.cmd.error.as_deref(), Some("it broke"));
    d.back();
    assert!(d.selected.is_none());
    assert_eq!(modes_line(&template()).as_deref(), Some("saml · password"));
    let mut bare = template();
    bare.supported_single_sign_on_modes.clear();
    assert_eq!(modes_line(&bare), None);
}

#[test]
fn the_add_owner_dialog_shows_whom_the_search_found() {
    let user = |id: &str, name: Option<&str>, upn: Option<&str>| DirectoryUser {
        id: id.into(),
        display_name: name.map(String::from),
        user_principal_name: upn.map(String::from),
    };
    match candidates("ab", &Err("down".into())) {
        OwnerCandidates::Failed(t) => assert_eq!(t, "down"),
        other => panic!("{other:?}"),
    }
    assert!(matches!(candidates(" a ", &Ok(vec![])), OwnerCandidates::Hidden));
    match candidates("ab", &Ok(vec![])) {
        OwnerCandidates::Nothing(t) => assert_eq!(t, "No matches."),
        other => panic!("{other:?}"),
    }
    // Whoever was found stays, though the query has become too short since.
    let found = Ok(vec![user("1", Some("Ann"), Some("ann@x")), user("2", None, None)]);
    match candidates("", &found) {
        OwnerCandidates::Shown(c) => {
            assert_eq!((c[0].id.as_str(), c[0].name.as_str(), c[0].upn.as_str()), ("1", "Ann", "ann@x"));
            assert_eq!((c[1].id.as_str(), c[1].name.as_str(), c[1].upn.as_str()), ("2", "—", ""));
            assert_eq!(c.len(), 2);
        }
        other => panic!("{other:?}"),
    }
}

#[test]
fn an_empty_search_is_no_empty_result() {
    let none = listing(&Ok(None), "");
    assert!(matches!(none, GalleryListing::Prompt));
    let found = |results, partial_catalog, truncated| {
        Ok(Some(GallerySearchResults { results, total_matches: 40, truncated, partial_catalog }))
    };
    match listing(&found(vec![], false, false), " abc ") {
        GalleryListing::Nothing(t) => assert_eq!(t, "No gallery apps match “abc”."),
        other => panic!("{other:?}"),
    }
    match listing(&found(vec![], true, false), "abc") {
        GalleryListing::Nothing(t) => assert!(t.contains("only partly loaded")),
        other => panic!("{other:?}"),
    }
    match listing(&found(vec![template()], false, true), "abc") {
        GalleryListing::Matches(Some(t)) => assert_eq!(
            t,
            "Showing the closest 1 of 40 matches — refine the search to narrow it."
        ),
        other => panic!("{other:?}"),
    }
    assert!(matches!(
        listing(&found(vec![template()], false, false), "abc"),
        GalleryListing::Matches(None)
    ));
    match listing(&Err("down".into()), "abc") {
        GalleryListing::Failed(t) => assert_eq!(t, "Search failed: down"),
        other => panic!("{other:?}"),
    }
}

fn report(statuses: &[&str], failures: usize) -> MigrationReport {
    MigrationReport { statuses: strings(statuses), failures }
}

#[test]
fn a_migration_is_planned_before_it_is_made() {
    let mut d = MigrateLegacyScopeButton::new();
    assert!(d.show(&tenant()));
    assert!(!d.can_migrate());
    assert!(!d.finished(true, Ok(report(&["migrated"], 0))));
    assert!(d.open && d.can_migrate());
    assert!(d.run(&tenant()));
    assert!(!d.can_migrate());
    assert!(!d.finished(false, Ok(report(&["migrated", "partial"], 0))));
    assert!(d.open);
    assert!(d.run(&tenant()));
    assert!(!d.finished(false, Ok(report(&["migrated"], 1))));
    assert!(d.run(&tenant()));
    assert!(!d.finished(false, Ok(report(&[], 0))));
    assert!(d.run(&tenant()));
    assert!(!d.finished(false, Err(error("x"))));
    assert_eq!(d.error.as_deref(), Some("it broke"));
    assert!(d.run(&tenant()));
    assert!(d.finished(false, Ok(report(&["migrated", "migrated"], 0))));
    assert!(!d.open);
}

#[test]
fn a_choice_opens_one_dialog() {
    let mut d = NewAppChooserDialog { chooser: true, gallery: false, sso_wizard: false };
    d.pick(NewAppChoice::Gallery);
    assert_eq!(d, NewAppChooserDialog { chooser: false, gallery: true, sso_wizard: false });
    let mut e = NewAppChooserDialog { chooser: true, gallery: false, sso_wizard: false };
    e.pick(NewAppChoice::Custom);
    assert_eq!(e, NewAppChooserDialog { chooser: false, gallery: false, sso_wizard: true });
}

#[test]
fn a_copy_counts_once_it_is_made() {
    let mut d = SecretRevealDialog { copied: false };
    assert_eq!(d.button(), "Copy to clipboard");
    d.was_copied();
    assert_eq!(d.button(), "Copied");
    d.copying();
    assert_eq!(d.button(), "Copy to clipboard");
}

#[test]
fn a_file_names_the_certificate() {
    assert_eq!(file_stem("app.prod.cer"), "app.prod");
    assert_eq!(file_stem("cert"), "cert");
    assert_eq!(file_stem(".pem"), "");
    assert_eq!(file_stem("é.b"), "é");
    let mut d = UploadCertificateDialog::new();
    d.file_read("my.cer".into(), b"-----BEGIN CERTIFICATE-----");
    assert_eq!(d.pem, "-----BEGIN CERTIFICATE-----");
    assert_eq!(d.display_name, "my");
    assert_eq!(d.loaded_line().as_deref(), Some("Loaded: my.cer"));
    d.file_read("other.cer".into(), &[0x30, 0x82, 0x01]);
    assert_eq!(d.display_name, "my");
    d.file_unreadable();
    assert_eq!(d.error.as_deref(), Some("Could not read the selected file."));
    assert!(d.upload(&None).is_none());
    assert_eq!(d.error, None);
    let i = d.upload(&tenant()).unwrap();
    assert_eq!((i.display_name.as_str(), i.pem_or_base64.as_str()), ("my", "MIIB"));
    assert!(d.upload(&tenant()).is_none());
    assert!(!d.finished(Err(error("x"))));
    d.upload(&tenant());
    assert!(d.finished(Ok(())));
    assert!(d.pem.is_empty() && d.file_name.is_none());
}

#[test]
fn a_certificate_travels_as_pem_or_base64() {
    assert_eq!(cert_payload_from_bytes(b""), "");
    assert_eq!(cert_payload_from_bytes(b"f"), "Zg==");
    assert_eq!(cert_payload_from_bytes(b"fo"), "Zm8=");
    assert_eq!(cert_payload_from_bytes(b"foo"), "Zm9v");
    assert_eq!(cert_payload_from_bytes(b"foobar"), "Zm9vYmFy");
    assert_eq!(cert_payload_from_bytes(&[0xfb, 0xff, 0xfe]), "+//+");
    let pem = "Vorwort: é\n-----BEGIN CERTIFICATE-----\nMIIB\n";
    assert_eq!(cert_payload_from_bytes(pem.as_bytes()), pem);
    // A marker among bytes that are no text makes no PEM file.
    let mut bytes = b"-----BEGIN".to_vec();
    bytes.push(0xff);
    assert_eq!(cert_payload_from_bytes(&bytes), "LS0tLS1CRUdJTv8=");
    assert_eq!(base64_text(&[0; 5]).len(), 8);
}

#[test]
fn mailbox_scoping_needs_a_group() {
    let mut d = ScopeMailboxButton::new();
    d.open = true;
    assert!(d.confirm(&tenant()).is_none());
    assert_eq!(
        d.error.as_deref(),
        Some("Enter at least one mail-enabled group (one per line).")
    );
    d.groups_text = "a@x\n\n b@x ".into();
    assert_eq!(d.confirm(&tenant()).unwrap(), strings(&["a@x", "b@x"]));
    assert_eq!(
        d.finished(Ok((2, 1))).unwrap(),
        "Scoped mailbox access — removed 2 org-wide grant(s) (1 warning(s)). Re-run the audit to refresh scores."
    );
    assert!(!d.open);
}

#[test]
fn site_scoping_may_lack_a_consent() {
    let mut d = ScopeSharePointButton::new();
    assert!(d.scope(false, &tenant()).is_none());
    assert_eq!(d.error.as_deref(), Some("Enter at least one site URL (one per line)."));
    d.sites_text = "https://x".into();
    assert_eq!(d.scope(true, &tenant()).unwrap().role, "write");
    assert!(d.finished(Err(error("consent_required"))).is_none());
    assert!(d.needs_consent);
    assert!(d.grant_consent(&tenant()));
    d.consent_finished(Ok(()));
    assert!(!d.needs_consent);
    assert_eq!(d.scope(false, &tenant()).unwrap().role, "read");
    assert_eq!(
        d.finished(Ok((1, 2))).unwrap(),
        "Restricted SharePoint access to 1 site(s) — removed 2 org-wide grant(s). Re-run the audit to refresh scores."
    );
}

#[test]
fn a_fix_reports_its_row() {
    let app = ScopeFixTarget::AppReg { object_id: "o".into() };
    let sp = ScopeFixTarget::ServicePrincipal {
        sp_object_id: "s".into(),
        app_id: "a".into(),
        display_name: "d".into(),
    };
    assert_eq!(app.row_id(), "o");
    assert_eq!(sp.row_id(), "s");
    assert!(app.clone() == app && sp.clone() == sp && app != sp);
}
