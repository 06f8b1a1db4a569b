use azapptoolkit_views::application_detail_pane::ApplicationDetailPane;
use azapptoolkit_views::audit::{
    AuditItem, AuditPrincipalKind, CredentialStatus, IssueMarkers, RiskLevel,
};
use azapptoolkit_views::bulk_actions::{BulkActionsView, BulkCreateReport, BulkOutcome};
use azapptoolkit_views::config_screen::{config_error_hint, AuthConfigForm, ConfigScreen};
use azapptoolkit_views::dashboards::app_permission_grants::{
    risk_badge, AppPermissionGrant, AppPermissionGrantsView,
};
use azapptoolkit_views::dashboards::app_permissions::AppPermissionsView;
use azapptoolkit_views::dashboards::consent_grants::{
    consent_badge, scope_class, ConsentGrantsView, OAuth2Grant,
};
use azapptoolkit_views::dashboards::credentials::{
    credential_row, status_badge, CredentialRow, CredentialsDashboard,
};
use azapptoolkit_views::disaster_recovery::{
    backup_saved, enterprise_line, failure_line, identity_line, names_note, progress_text,
    report_saved, total, BackupSummary, CloudMismatch, DisasterRecoveryView, RestorePlan,
    RestoreSummary, RunProgress,
};
use azapptoolkit_views::home_dashboard::{
    card_state, metric, metric_link, AppInventory, CardState, CredentialExpiry, HomeDashboard,
    MiSubtype,
};
use azapptoolkit_views::key_vault::{KeyVaultView, SecretValue};
use azapptoolkit_views::lists::enterprise_application_list::{
    empty_words, view_row, EnterpriseApplicationList, EnterpriseApplicationRow,
};
use azapptoolkit_views::lists::filters::EmptyList;
use azapptoolkit_views::session::{Toast, UiError};

fn tenant() -> Option<String> {
    Some("tenant".into())
}

fn error(code: &str) -> UiError {
    UiError { code: code.into(), message: "it broke".into(), retryable: false }
}

fn strings(v: &[&str]) -> Vec<String> {
    v.iter().map(|s| s.to_string()).collect()
}

fn said(t: Option<Toast>) -> String {
    match t {
        Some(Toast::Success(s)) => s,
        Some(Toast::Failure(s)) => format!("! {s}"),
        None => String::new(),
    }
}

fn enterprise(name: &str, enabled: Option<bool>, foreign: bool) -> EnterpriseApplicationRow {
    EnterpriseApplicationRow {
        id: name.to_string(),
        app_id: format!("{name}-appid"),
        display_name: name.to_string(),
        account_enabled: enabled,
        created: None,
        is_foreign_tenant: foreign,
        paired_app_registration_id: None,
    }
}

#[test]
fn enterprise_facets_may_overlap() {
    let rows = vec![
        enterprise("A", Some(true), true),
        enterprise("B", Some(false), true),
        enterprise("C", None, false),
    ];
    let list = EnterpriseApplicationList::new();
    let l = list.loaded(&rows, "", "all");
    assert_eq!((l.total, l.base_total), (3, 3));
    assert_eq!((l.enabled, l.disabled, l.foreign), (1, 1, 2));
    assert_eq!(list.loaded(&rows, "", "foreign").shown, vec![0, 1]);
    assert_eq!(list.loaded(&rows, "", "disabled").shown, vec![1]);
    assert_eq!(list.loaded(&rows, "", "enabled").shown, vec![0]);
    // By name alone.
    assert!(list.loaded(&rows, "appid", "all").shown.is_empty());
    assert_eq!(list.loaded(&rows, "b", "all").shown, vec![1]);
    // The links of the start page lead to as many rows.
    let (n, disabled, foreign) = HomeDashboard::enterprise_card(&rows);
    assert_eq!(n, 3);
    assert_eq!(disabled.n, list.loaded(&rows, "", disabled.facet.unwrap()).shown.len());
    assert_eq!(foreign.n, list.loaded(&rows, "", foreign.facet.unwrap()).shown.len());
}

#[test]
fn a_link_opens_the_drawer_once() {
    let mut list = EnterpriseApplicationList::new();
    let mut pending = true;
    list.take_open_request(&mut pending);
    assert!(list.filters_open && !pending);
    list.filters_open = false;
    list.take_open_request(&mut pending);
    assert!(!list.filters_open);
    assert_eq!(list.active_filters("all"), 0);
    assert_eq!(list.active_filters("foreign"), 1);
    assert!(!list.on_refresh(&None));
    assert!(list.on_refresh(&tenant()));
    list.load_ended();
    let r = view_row(&enterprise("A", None, true));
    assert_eq!((r.row_label.as_str(), r.foreign), ("A (A-appid)", true));
    assert_eq!(empty_words(EmptyList::NoneYet).0, "No enterprise applications yet");
}

#[test]
fn a_zero_leads_nowhere() {
    let zero = metric_link(0, "Disabled", "warning", "disabled");
    assert_eq!((zero.class.as_str(), zero.facet, zero.title), ("dash-metric__num", None, None));
    let two = metric_link(2, "Disabled", "warning", "disabled");
    assert_eq!(two.class, "dash-metric__num dash-metric__num--warning");
    assert_eq!(two.title.as_deref(), Some("Show Disabled"));
    assert_eq!(two.facet, Some("disabled"));
    assert_eq!(metric(3, "With certs", "warning").facet, None);
    assert_eq!(card_state::<u8>(&None), CardState::NoTenant);
    assert_eq!(card_state::<u8>(&Some(Err(error("x")))), CardState::Failed);
    assert_eq!(card_state(&Some(Ok(1_u8))), CardState::Loaded);
}

fn expiry(status: CredentialStatus, days: Option<i64>) -> CredentialExpiry {
    CredentialExpiry { status, days_to_expiry: days }
}

#[test]
fn the_start_page_counts() {
    let apps = [
        AppInventory { password_credential_count: 2, key_credential_count: 0 },
        AppInventory { password_credential_count: 0, key_credential_count: 1 },
        AppInventory { password_credential_count: 1, key_credential_count: 0 },
    ];
    let (n, secrets, certs) = HomeDashboard::apps_card(&apps);
    assert_eq!((n, secrets.n, certs.n), (3, 2, 1));
    let (n, system, user) = HomeDashboard::managed_card(&[
        MiSubtype::SystemAssigned,
        MiSubtype::UserAssigned,
        MiSubtype::UserAssigned,
        MiSubtype::Unknown,
    ]);
    assert_eq!((n, system.n, user.n), (4, 1, 2));
    let (expired, week, month) = HomeDashboard::credentials_card(&[
        expiry(CredentialStatus::Expired, Some(-1)),
        expiry(CredentialStatus::ExpiringSoon, Some(0)),
        expiry(CredentialStatus::ExpiringSoon, Some(7)),
        expiry(CredentialStatus::ExpiringSoon, Some(8)),
        expiry(CredentialStatus::Active, Some(31)),
        expiry(CredentialStatus::Unknown, None),
    ]);
    assert_eq!((expired.n, week.n, month.n), (1, 2, 3));
    assert_eq!(week.facet, Some("7"));
}

#[test]
fn the_posture_card_waits_for_a_run() {
    let s = |t: &str| t.to_string();
    let m = IssueMarkers {
        high_risk_app_perms: s("perms"),
        high_risk_delegated_perms: s("delegated"),
        org_wide_mailbox: s("mailbox"),
        scoped_via_rbac: s("scoped"),
        legacy_mailbox_policy: s("legacy"),
        unconfinable_mailbox: s("um"),
        org_wide_sharepoint: s("sites"),
        scoped_sharepoint: s("ss"),
        unconfinable_sharepoint: s("us"),
        redundant_app_perms: s("redundant"),
        no_owners: s("none"),
        single_owner: s("single"),
        multitenant_audience: s("multi"),
        unverified_publisher: s("unverified"),
    };
    assert!(HomeDashboard::posture_card(&m, &None).is_none());
    let item = AuditItem {
        application_name: "App".into(),
        app_id: "a".into(),
        object_id: "o".into(),
        risk_score: 0,
        risk_level: RiskLevel::High,
        issues: strings(&["mailbox x", "single owner"]),
        remediations: vec![],
        credential_status: CredentialStatus::Active,
        last_sign_in: None,
        unused: true,
        sign_in_report_available: false,
        principal_kind: AuditPrincipalKind::Application,
    };
    let card = HomeDashboard::posture_card(&m, &Some(vec![item])).unwrap();
    let shown: Vec<(&str, usize)> = card.iter().map(|c| (c.label, c.n)).collect();
    assert_eq!(
        shown,
        vec![
            ("Critical", 0),
            ("High", 1),
            ("Medium", 0),
            ("Expired", 0),
            ("Over-privileged", 0),
            ("Org-wide mailbox", 1),
            ("Org-wide SharePoint", 0),
            ("Unowned", 1),
            ("Unused", 1),
        ]
    );
}

fn grant(sp: &str, app: &str, permission: &str, risk: &str) -> AppPermissionGrant {
    AppPermissionGrant {
        client_sp_id: sp.into(),
        client_display_name: app.into(),
        permission: permission.into(),
        resource_display_name: "Microsoft Graph".into(),
        risk: risk.into(),
    }
}

#[test]
fn permission_grants_are_filtered_and_counted() {
    let all = vec![
        grant("1", "Payroll", "Mail.ReadWrite", "high"),
        grant("1", "Payroll", "Sites.FullControl.All", "high"),
        grant("2", "Mailer", "Mail.Send", "medium"),
        grant("3", "Reader", "User.Read.All", "low"),
    ];
    assert_eq!(AppPermissionGrantsView::rows(&all, "all", ""), vec![0, 1, 2, 3]);
    assert_eq!(AppPermissionGrantsView::rows(&all, "high", ""), vec![0, 1]);
    assert_eq!(AppPermissionGrantsView::rows(&all, "medium", ""), vec![2]);
    assert_eq!(AppPermissionGrantsView::rows(&all, "all", "mail"), vec![0, 2]);
    assert_eq!(AppPermissionGrantsView::rows(&all, "high", "graph"), vec![0, 1]);
    assert_eq!(
        AppPermissionGrantsView::banner(&all).unwrap(),
        "2 high-risk application permission(s) held by 1 app(s). These grant tenant-wide access with no signed-in user."
    );
    assert_eq!(AppPermissionGrantsView::banner(&all[2..]), None);
    assert_eq!(AppPermissionsView::rows(&all, "high", ""), vec![0, 1]);
    assert_eq!(AppPermissionsView::rows(&all, "medium", "mail"), vec![2]);
    assert_eq!(
        AppPermissionsView::banner(&all).unwrap(),
        "2 high-risk application permission grant(s) — these run app-only, without a user."
    );
    assert_eq!(risk_badge(&all[0]), ("High", "badge badge--danger"));
    assert_eq!(risk_badge(&all[2]), ("Medium", "badge badge--warning"));
    assert_eq!(risk_badge(&all[3]), ("Low", "badge"));
}

fn consent(app: &str, kind: &str, scopes: &[&str], risky: &[&str]) -> OAuth2Grant {
    OAuth2Grant {
        client_sp_id: app.into(),
        client_app_id: None,
        client_display_name: app.into(),
        resource_display_name: "Graph".into(),
        consent_type: kind.into(),
        scopes: strings(scopes),
        risky_scopes: strings(risky),
    }
}

#[test]
fn consents_are_filtered_and_counted() {
    let all = vec![
        consent("Payroll", "AllPrincipals", &["Mail.Read", "openid"], &["Mail.Read"]),
        consent("Wiki", "AllPrincipals", &["openid"], &[]),
        consent("Notes", "Principal", &["Files.ReadWrite.All"], &["Files.ReadWrite.All"]),
    ];
    assert_eq!(ConsentGrantsView::rows(&all, "risky", ""), vec![0, 2]);
    assert_eq!(ConsentGrantsView::rows(&all, "admin", ""), vec![0, 1]);
    assert_eq!(ConsentGrantsView::rows(&all, "all", "pay"), vec![0]);
    assert_eq!(
        ConsentGrantsView::banner(&all).unwrap(),
        "2 grant(s) include high-risk scopes (1 admin-consented for all users)."
    );
    assert_eq!(ConsentGrantsView::banner(&all[1..2]), None);
    assert_eq!(consent_badge(&all[0]), ("Admin (all users)", "badge badge--warning"));
    assert_eq!(consent_badge(&all[2]), ("User", "badge"));
    assert_eq!(scope_class(&all[0], "Mail.Read"), "badge badge--danger");
    assert_eq!(scope_class(&all[0], "openid"), "badge");
}

#[test]
fn credentials_are_filtered_and_counted() {
    let row = |app: &str, status, days| CredentialRow {
        app_object_id: "o".into(),
        app_id: format!("{app}-id"),
        app_display_name: app.into(),
        credential_name: "c".into(),
        expiry: expiry(status, days),
        end: None,
    };
    let all = vec![
        row("Old", CredentialStatus::Expired, Some(-4)),
        row("Soon", CredentialStatus::ExpiringSoon, Some(7)),
        row("Later", CredentialStatus::ExpiringSoon, Some(30)),
        row("Fine", CredentialStatus::Active, Some(200)),
    ];
    assert_eq!(CredentialsDashboard::rows(&all, "expired", ""), vec![0]);
    assert_eq!(CredentialsDashboard::rows(&all, "7", ""), vec![1]);
    assert_eq!(CredentialsDashboard::rows(&all, "30", ""), vec![1, 2]);
    assert_eq!(CredentialsDashboard::rows(&all, "all", "later-id"), vec![2]);
    assert_eq!(
        CredentialsDashboard::banner(&all).unwrap(),
        "1 credential(s) already expired; 1 expire within 7 days."
    );
    assert_eq!(CredentialsDashboard::banner(&all[2..]), None);
    let cells = credential_row(&all[1]);
    assert_eq!((cells.expires.as_str(), cells.status.as_str()), ("—", "7d left"));
    assert_eq!(cells.class, "badge badge--danger");
}

#[test]
fn a_credential_badge_has_a_label_for_every_state() {
    let b = |s, d| status_badge(s, d);
    assert_eq!(b(CredentialStatus::Expired, Some(-9)), ("Expired".into(), "badge--danger"));
    assert_eq!(b(CredentialStatus::ExpiringSoon, Some(7)), ("7d left".into(), "badge--danger"));
    assert_eq!(b(CredentialStatus::ExpiringSoon, Some(8)), ("8d left".into(), "badge--warning"));
    assert_eq!(b(CredentialStatus::ExpiringSoon, None), ("Expiring".into(), "badge--warning"));
    assert_eq!(b(CredentialStatus::Active, Some(90)), ("90d left".into(), "badge--ok"));
    assert_eq!(b(CredentialStatus::Active, None), ("Active".into(), "badge--ok"));
    assert_eq!(b(CredentialStatus::Unknown, Some(1)), ("No expiry".into(), "badge--unknown"));
}

fn plan(mismatch: bool) -> RestorePlan {
    RestorePlan {
        cloud_mismatch: if mismatch {
            Some(CloudMismatch { backup_cloud: "gov".into(), destination_cloud: "public".into() })
        } else {
            None
        },
        tenant_changed: true,
        source_tenant_id: "A".into(),
        destination_tenant_id: "B".into(),
        app_registrations_to_create: 3,
        secrets_to_regenerate: 4,
        certificates_needing_manual_upload: 1,
        federated_credentials_to_restore: 0,
        owners_to_remap: 2,
    }
}

#[test]
fn a_backup_is_summed_up() {
    let n = BackupSummary::new(&vec![2, 0, 3], 4, 1).unwrap();
    assert_eq!(
        n.ready_line(),
        "Ready: 3 app registration(s), 4 enterprise app(s), 1 managed identity(ies). 5 secret(s) will need regeneration on restore."
    );
    assert!(BackupSummary::new(&vec![usize::MAX, 1], 0, 0).is_none());
    assert_eq!(total(&vec![usize::MAX]), Some(usize::MAX));
    let mut v: DisasterRecoveryView<u8, u8> = DisasterRecoveryView::new();
    assert!(!v.run_backup(&None));
    assert!(v.run_backup(&tenant()));
    assert!(!v.run_backup(&tenant()));
    assert_eq!(
        said(v.backup_finished(Ok((1, n)))),
        "Backed up 3 app registration(s), 4 enterprise app(s), 1 managed identity(ies). Save it to a file to keep it."
    );
    assert_eq!(v.captured, Some(1));
    v.run_backup(&tenant());
    assert_eq!(v.captured, None);
    assert_eq!(said(v.backup_finished(Err(error("cancelled")))), "Backup cancelled.");
    assert_eq!(v.error, None);
    v.run_backup(&tenant());
    assert_eq!(said(v.backup_finished(Err(error("x")))), "");
    assert_eq!(v.error.as_deref(), Some("it broke"));
}

#[test]
fn another_cloud_cannot_be_restored() {
    let mut v: DisasterRecoveryView<u8, u8> = DisasterRecoveryView::new();
    v.ask_restore();
    assert!(!v.confirm_open);
    assert!(v.load_file(&tenant()));
    v.file_loaded(Ok(Some((1, plan(true)))));
    assert!(v.shows_plan() && !v.can_restore());
    v.ask_restore();
    assert!(!v.confirm_open);
    assert!(!v.do_restore(&tenant()));
    v.file_loaded(Ok(None));
    v.file_loaded(Ok(Some((2, plan(false)))));
    v.ask_restore();
    assert!(v.do_restore(&tenant()));
    assert!(v.restoring && !v.can_restore());
    let n = RestoreSummary::new(&vec![1, 2], true).unwrap();
    assert_eq!(
        v.restore_finished(Ok((9, n))).unwrap(),
        "Restored 2 app(s); 3 secret(s) regenerated. Save the report — the secret values are shown only once."
    );
    assert!(!v.shows_plan());
    assert_eq!(
        n.summary_line(),
        "Restored 2 app(s) (cancelled before completing — partial). 3 secret(s) regenerated."
    );
    assert!(n.has_secrets());
    v.file_loaded(Err(error("x")));
    assert_eq!(v.restore_error.as_deref(), Some("it broke"));
}

#[test]
fn a_plan_says_what_it_would_do() {
    assert_eq!(
        plan(false).lines(),
        strings(&[
            "3 app registration(s) to create",
            "4 secret(s) to regenerate (new values issued)",
            "1 certificate(s) need manual re-upload",
            "0 federated credential(s) restored as-is",
            "2 owner(s) to remap by name",
        ])
    );
    assert_eq!(plan(false).cloud_line(), None);
    assert_eq!(
        plan(true).cloud_line().unwrap(),
        "This backup is from the \"gov\" cloud, but this app targets \"public\". Restore is blocked — use a build configured for the backup's cloud."
    );
    assert_eq!(
        plan(false).tenant_line().unwrap(),
        "Backup is from tenant A — restoring into a different tenant (B). IDs will be reassigned and references remapped by name."
    );
    let p = RunProgress { done: 2, total: 5, current_app: Some("Mail".into()) };
    assert_eq!(progress_text("Captured", &p), "Captured 2/5 — Mail");
    assert_eq!(names_note("Unresolved: ", &strings(&["a", "b"])).unwrap(), "Unresolved: a, b");
    assert_eq!(names_note("Unresolved: ", &vec![]), None);
    assert_eq!(enterprise_line(1, 2), "1 assignment(s), 2 group membership(s)");
    assert_eq!(identity_line(3), "3 Graph app-role(s) re-bound");
    assert_eq!(failure_line("App", "no"), "App: no");
    assert_eq!(said(backup_saved(Ok(Some("/x".into())))), "Backup saved to /x");
    assert_eq!(said(backup_saved(Ok(None))), "");
    assert_eq!(said(report_saved(Err(error("x")))), "! Couldn't save report: it broke");
}

#[test]
fn a_bulk_form_is_checked_before_it_is_sent() {
    let mut v = BulkActionsView::new();
    assert!(v.do_create::<u8>(Err("eof".into()), &tenant()).is_none());
    assert_eq!(v.error.as_deref(), Some("Invalid JSON: eof"));
    assert!(v.do_create::<u8>(Ok(vec![]), &tenant()).is_none());
    assert_eq!(v.error.as_deref(), Some("JSON array is empty."));
    assert!(!v.do_cancel());
    assert_eq!(v.do_create(Ok(vec![1_u8, 2]), &tenant()), Some(vec![1, 2]));
    assert!(v.do_cancel());
    assert_eq!(v.cancel_label(), "Cancelling…");
    assert!(!v.do_cancel());
    let o = |name: &str, status: &str, message: Option<&str>| BulkOutcome {
        display_name: name.into(),
        status: status.into(),
        message: message.map(String::from),
    };
    let report = BulkCreateReport {
        outcomes: vec![
            o("A", "created", None),
            o("B", "failed", Some("quota")),
            o("C", "skipped", None),
        ],
        validate_only: false,
        cancelled: true,
    };
    assert!(!v.created(Ok(report)));
    assert_eq!(v.summary.as_deref(), Some("Created: 1 ok, 2 problem(s) (cancelled)."));
    let why: Vec<&str> = v.failures.iter().map(|f| f.reason.as_str()).collect();
    assert_eq!(why, vec!["quota", "skipped"]);
    assert_eq!(v.failures_title().as_deref(), Some("2 item(s) failed:"));
    assert_eq!(v.summary_class(), "alert alert--warn");
    assert!(!v.busy && !v.cancelling);
    v.set_tab("create".into());
    assert!(v.creates() && v.summary.is_none() && v.failures.is_empty());
    v.do_create(Ok(vec![1_u8]), &tenant());
    v.progress = Some(RunProgress { done: 1, total: 3, current_app: None });
    assert_eq!(v.working_line(), "Working… (1/3)");
    assert!(v.created(Ok(BulkCreateReport {
        outcomes: vec![o("A", "created", None)],
        validate_only: false,
        cancelled: false,
    })));
    assert_eq!(v.summary_class(), "alert alert--ok");
    v.do_create(Ok(vec![1_u8]), &tenant());
    assert!(!v.created(Err(error("x"))));
    assert_eq!(v.error.as_deref(), Some("it broke"));
}

#[test]
fn ids_are_saved_at_once_or_after_the_question() {
    let mut f = ConfigScreen(" c ".into(), "".into());
    assert!(f.on_submit().is_none());
    assert_eq!(
        f.error.as_ref().unwrap().message,
        "Enter both the Application (client) ID and Directory (tenant) ID."
    );
    f.tenant_id = " t ".into();
    let ids = f.on_submit().unwrap();
    assert_eq!((ids.client_id.as_str(), ids.tenant_id.as_str()), ("c", "t"));
    assert!(f.on_submit().is_none());
    f.refused(error("invalid_client_id"));
    assert!(!f.busy);
    assert!(f.error.unwrap().hint.starts_with("The Application (client) ID must be a GUID"));
    let mut s = AuthConfigForm::new("c".into(), " t ".into(), true);
    assert!(s.confirm().is_none());
    assert!(s.on_submit().is_none());
    assert!(s.confirming);
    assert_eq!(s.subject(), "t");
    assert!(s.confirm().is_some());
    s.refused(error("io"));
    assert!(!s.confirming);
    assert!(config_error_hint("invalid_tenant_id").contains("contoso.onmicrosoft.com"));
    assert!(config_error_hint("io").contains("settings.json"));
    assert_eq!(config_error_hint("other"), "Double-check the IDs and try again.");
}

#[test]
fn a_secret_is_dropped_when_the_page_is_left() {
    let secret = || SecretValue { name: "n".into(), value: "v".into() };
    let mut k: KeyVaultView<u8> = KeyVaultView::new(true);
    assert_eq!(k.empty_message(), "Enter a vault name and choose List secrets.");
    k.vault_name = " vault ".into();
    assert_eq!(k.load(&tenant()).as_deref(), Some("vault"));
    k.list_loaded(Ok(vec![]));
    assert_eq!(k.empty_message(), "No secrets in this vault.");
    let q = k.fetch_secret("n", &tenant()).unwrap();
    assert_eq!((q.vault.as_str(), q.secret.as_str()), ("vault", "n"));
    assert!(k.is_revealing("n"));
    assert!(k.fetch_secret("m", &tenant()).is_none());
    k.secret_fetched(Ok(secret()));
    assert!(k.revealed.is_some());
    k.view_changed(false);
    assert!(k.revealed.is_none());
    // One that arrives too late is not kept either.
    k.view_changed(true);
    k.fetch_secret("n", &tenant());
    k.view_changed(false);
    k.secret_fetched(Ok(secret()));
    assert!(k.revealed.is_none());
    k.view_changed(true);
    k.fetch_secret("n", &tenant());
    k.secret_fetched(Err(error("x")));
    assert_eq!(k.error.as_deref(), Some("it broke"));
}

#[test]
fn the_pane_of_an_app_registration() {
    let mut pending = Some("credentials".to_string());
    let mut p = ApplicationDetailPane::new(&mut pending, &"overview".to_string());
    assert_eq!((p.active_tab.as_str(), pending), ("credentials", None));
    assert!(ApplicationDetailPane::request(&None).is_err());
    assert!(p.on_refresh(&tenant()));
    assert!(!p.on_refresh(&tenant()));
    p.refreshed();
    p.delete_open = true;
    assert!(p.do_delete(&tenant()));
    assert_eq!(p.deleted(Err(error("x"))), None);
    assert_eq!(p.delete.error.as_deref(), Some("it broke"));
    assert!(p.do_delete(&tenant()));
    assert_eq!(p.deleted(Ok(())), Some("Application deleted."));
    assert!(!p.delete_open);
}
