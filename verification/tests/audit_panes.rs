use azapptoolkit_views::audit::{
    AuditItem, AuditPrincipalKind, BulkAction, CredentialStatus, IssueMarkers, RemediationAction,
    RemediationKind, RiskLevel,
};
use azapptoolkit_views::audit_facets::{empty_facet_message, posture_cards, AuditView};
use azapptoolkit_views::audit_view::controller::{
    progress_text, AuditController, AuditProgress, AuditRunResult,
};
use azapptoolkit_views::audit_view::findings::{
    finding_group_view, nothing_to_fix, section_groups, FindingsPane,
};
use azapptoolkit_views::audit_view::groups::{
    group_findings, impacts_in_range, ranked_actionable_findings, sev_rank, tone,
};
use azapptoolkit_views::audit_view::row::{row_actions, DetailPane};
use azapptoolkit_views::audit_view::sort::{sort_glyph, toggle_sort, SortCol};
use azapptoolkit_views::audit_view::table::{
    check_label, issue_cell, last_sign_in_cell, match_label, risk_class, AuditAppsPane, SignInCell,
};
use azapptoolkit_views::dialogs::scope_remediation::ScopeFixTarget;
use azapptoolkit_views::session::UiError;
use azapptoolkit_views::time::Timestamp;

fn markers() -> IssueMarkers {
    let s = |t: &str| t.to_string();
    IssueMarkers {
        high_risk_app_perms: s("High-risk application permissions"),
        high_risk_delegated_perms: s("High-risk delegated permissions"),
        org_wide_mailbox: s("Org-wide mailbox access"),
        scoped_via_rbac: s("scoped via Exchange RBAC"),
        legacy_mailbox_policy: s("Mailbox access confined by a legacy policy"),
        unconfinable_mailbox: s("Mailbox access that cannot be confined"),
        org_wide_sharepoint: s("Org-wide SharePoint access"),
        scoped_sharepoint: s("SharePoint scoped to selected sites"),
        unconfinable_sharepoint: s("SharePoint access that cannot be confined"),
        redundant_app_perms: s("Redundant application permissions"),
        no_owners: s("No owners"),
        single_owner: s("Single owner"),
        multitenant_audience: s("Multi-tenant audience"),
        unverified_publisher: s("Unverified publisher"),
    }
}

fn blank() -> AuditItem {
    AuditItem {
        application_name: "App".into(),
        app_id: "app-1".into(),
        object_id: "obj-1".into(),
        risk_score: 0,
        risk_level: RiskLevel::Low,
        issues: vec![],
        remediations: vec![],
        credential_status: CredentialStatus::Active,
        last_sign_in: None,
        unused: false,
        sign_in_report_available: false,
        principal_kind: AuditPrincipalKind::Application,
    }
}

fn tenant() -> Option<String> {
    Some("t1".into())
}

fn error(code: &str) -> UiError {
    UiError { code: code.into(), message: "it broke".into(), retryable: false }
}

fn fix(kind: RemediationKind) -> RemediationAction {
    RemediationAction { kind, label: "Fix".into(), detail: "d".into(), targets: vec![] }
}

fn item(name: &str, score: u32, level: RiskLevel) -> AuditItem {
    AuditItem {
        application_name: name.into(),
        object_id: format!("{name}-obj"),
        risk_score: score,
        risk_level: level,
        ..blank()
    }
}

fn run(items: Vec<AuditItem>) -> AuditRunResult {
    AuditRunResult {
        items,
        cancelled: false,
        sign_in_consent_required: false,
        sign_in_report_available: true,
    }
}

#[test]
fn a_scan_runs_once_and_leaves_its_result() {
    let mut c = AuditController::new();
    assert!(!c.run(&None));
    assert!(c.run(&tenant()));
    assert!(!c.run(&tenant()));
    let p = AuditProgress {
        done: 3,
        total: 9,
        current_app: None,
        in_flight_cap: 4,
        cancelled: true,
    };
    assert_eq!(progress_text(&p), "3 / 9 apps  (cap: 4, cancelled)");
    c.progressed(p);
    assert!(c.run_finished(Ok(run(vec![blank()]))));
    assert!(!c.scanning && c.progress.is_none());
    assert_eq!(c.total_items(), Some(1));
    assert!(c.report_available());
    assert!(c.run(&tenant()));
    assert!(!c.run_finished(Err(error("x"))));
    assert_eq!(c.scan_error.as_deref(), Some("it broke"));
    assert_eq!(c.total_items(), Some(1));
    assert_eq!(c.tenant_changed(Some("t2")).as_deref(), Some("t2"));
    assert_eq!(c.total_items(), None);
    // What was asked for the last tenant comes too late.
    c.cached_loaded("t1", &Some("t2".into()), Some(run(vec![])));
    assert_eq!(c.total_items(), None);
    c.cached_loaded("t2", &Some("t2".into()), Some(run(vec![])));
    assert_eq!(c.total_items(), Some(0));
}

#[test]
fn an_export_sends_the_items_of_a_cancelled_run_only() {
    let mut c = AuditController::new();
    assert!(c.export("csv", &tenant()).is_none());
    c.result = Some(run(vec![]));
    assert!(c.export("csv", &tenant()).is_none());
    c.result = Some(run(vec![blank()]));
    assert!(!c.export("csv", &tenant()).unwrap().send_items);
    assert!(c.export_disabled());
    c.export_finished(Ok(Some("/x".into())));
    assert_eq!(c.export_msg.as_deref(), Some("Saved to /x"));
    let mut cut = run(vec![blank()]);
    cut.cancelled = true;
    c.result = Some(cut);
    assert!(c.export("json", &tenant()).unwrap().send_items);
    c.export_finished(Err(error("x")));
    assert_eq!(c.export_msg.as_deref(), Some("Export failed: it broke"));
}

#[test]
fn consent_runs_the_audit_again() {
    let mut c = AuditController::new();
    let mut r = run(vec![]);
    r.sign_in_consent_required = true;
    c.result = Some(r);
    assert!(c.consent_needed());
    assert!(c.grant_reports_consent(&tenant()));
    assert!(!c.consent_finished(Err(error("x")), &tenant()));
    assert_eq!(c.scan_error.as_deref(), Some("it broke"));
    assert!(c.consent_finished(Ok(()), &tenant()));
    assert!(c.scanning);
    assert!(!c.grant_reports_consent(&tenant()));
}

#[test]
fn an_applied_fix_goes_and_the_others_stay() {
    let mut a = item("A", 1, RiskLevel::Low);
    a.remediations = vec![
        fix(RemediationKind::RemoveExpiredCredentials),
        fix(RemediationKind::AddOwner),
    ];
    let mut b = item("B", 1, RiskLevel::Low);
    b.remediations = vec![fix(RemediationKind::AddOwner)];
    let mut c = AuditController::new();
    c.result = Some(run(vec![a, b]));
    c.on_remediated("A-obj", RemediationKind::AddOwner);
    let items = &c.result.as_ref().unwrap().items;
    assert_eq!(items[0].remediations.len(), 1);
    assert_eq!(items[0].remediations[0].kind, RemediationKind::RemoveExpiredCredentials);
    assert_eq!(items[1].remediations.len(), 1);
    c.clear_fixes("A-obj");
    assert!(c.result.as_ref().unwrap().items[0].remediations.is_empty());
    assert_eq!(c.posture(&markers()).unwrap().low, 2);
}

#[test]
fn one_panel_is_open_and_owns_the_selection() {
    let mut p = FindingsPane::new();
    p.toggle("expired");
    assert!(p.is_open("expired"));
    p.toggle_selected("x");
    p.show_more();
    p.toggle("unused");
    assert!(!p.is_open("expired") && p.is_open("unused"));
    assert!(p.selection.is_empty());
    assert_eq!(p.window.limit, 200);
    p.fix_all("unused", &vec!["a".into(), "b".into()]);
    assert_eq!(p.selection.len(), 2);
    p.open("unused");
    assert_eq!(p.selection.len(), 2);
    p.toggle("unused");
    assert!(p.expanded.is_none());
    p.toggle_healthy();
    assert!(p.healthy_open);
}

#[test]
fn a_panel_offers_its_own_fix() {
    let mut expired = item("Old", 9, RiskLevel::High);
    expired.credential_status = CredentialStatus::Expired;
    let mut sp = item("Sp", 1, RiskLevel::Low);
    sp.credential_status = CredentialStatus::Expired;
    sp.principal_kind = AuditPrincipalKind::ServicePrincipal;
    let items = vec![expired, sp];
    assert!(impacts_in_range(&markers(), &items));
    let groups = group_findings(&markers(), &items);
    assert!(!nothing_to_fix(&groups));
    let shown = section_groups(&groups, false);
    let keys: Vec<&str> = shown.iter().map(|i| groups[*i].spec.key).collect();
    assert_eq!(keys, vec!["expired", "no_local_app"]);
    assert_eq!(section_groups(&groups, true).len(), 2);
    let mut pane = FindingsPane::new();
    pane.open("expired");
    let panel = finding_group_view(&pane, &groups[shown[0]], &items, true, true);
    assert!(panel.open);
    assert_eq!((panel.tone, panel.chevron), ("danger", "▾"));
    assert_eq!(panel.count_label, "2 principals");
    assert_eq!(panel.bulk, vec![BulkAction::RemoveExpired]);
    assert_eq!(panel.eligible, vec!["Old-obj".to_string()]);
    assert_eq!(panel.fix_all.as_deref(), Some("Fix all 1"));
    assert_eq!(
        panel.select_label.as_deref(),
        Some("2 affected — 1 selectable for bulk fixes")
    );
    assert_eq!(panel.rows, vec![0, 1]);
    let healthy = finding_group_view(&pane, &groups[shown[1]], &items, true, false);
    assert_eq!(healthy.chevron, "▸");
    assert!(healthy.bulk.is_empty() && healthy.select_label.is_none());
    assert_eq!(healthy.count_label, "1 principal");
    let heads = ranked_actionable_findings(&markers(), &items);
    assert_eq!(heads[0], ("expired", "Expired credentials", "danger"));
    assert_eq!(heads.len(), 11);
}

#[test]
fn impacts_that_cannot_be_counted_are_found_out() {
    let mut a = item("A", u32::MAX, RiskLevel::Low);
    a.unused = true;
    let mut b = item("B", 1, RiskLevel::Low);
    b.unused = true;
    assert!(!impacts_in_range(&markers(), &[a, b]));
    assert!(nothing_to_fix(&group_findings(&markers(), &[])));
}

#[test]
fn levels_rank_and_have_colours() {
    assert!(sev_rank(RiskLevel::Critical) > sev_rank(RiskLevel::High));
    assert!(sev_rank(RiskLevel::High) > sev_rank(RiskLevel::Medium));
    assert!(sev_rank(RiskLevel::Medium) > sev_rank(RiskLevel::Low));
    assert_eq!(tone(RiskLevel::Critical), "critical");
    assert_eq!(risk_class(&RiskLevel::Critical), "badge--critical");
    assert_eq!(risk_class(&RiskLevel::Low), "badge--ok");
}

#[test]
fn the_table_filters_sorts_and_pages() {
    let items = vec![
        item("beta", 5, RiskLevel::High),
        item("Alpha", 9, RiskLevel::High),
        item("gamma", 1, RiskLevel::Low),
    ];
    let mut t = AuditAppsPane::new();
    assert_eq!(t.visible(&markers(), &items), vec![0, 1, 2]);
    t.click_heading(SortCol::Name);
    assert_eq!(t.visible(&markers(), &items), vec![1, 0, 2]);
    t.click_heading(SortCol::Score);
    assert_eq!(t.visible(&markers(), &items), vec![1, 0, 2]);
    t.click_heading(SortCol::Score);
    assert_eq!(t.visible(&markers(), &items), vec![2, 0, 1]);
    t.click_heading(SortCol::Score);
    assert_eq!(t.sort, None);
    t.set_severity("high");
    assert_eq!(t.visible(&markers(), &items), vec![0, 1]);
    t.set_search("ALPHA");
    let s = t.screen(&markers(), &items);
    assert_eq!(s.count_label, "1 of 3 apps match");
    assert_eq!(s.visible_ids, vec!["Alpha-obj".to_string()]);
    assert_eq!(s.rows, vec![1]);
    assert!(!s.empty && s.more.is_none());
    t.show_more();
    assert_eq!(t.window.limit, 400);
    t.run_changed(Some(3), Some(3));
    assert_eq!(t.window.limit, 400);
    t.run_changed(Some(3), Some(2));
    assert_eq!(t.window.limit, 200);
    assert_eq!(match_label(0, 3), "0 of 3 apps match");
    assert_eq!(check_label("A"), "Select A for bulk actions");
}

#[test]
fn never_signed_in_sorts_as_earliest() {
    let stamp = |s: i64| Timestamp::new(s, 0);
    let mut a = item("a", 0, RiskLevel::Low);
    a.last_sign_in = stamp(1_000);
    let b = item("b", 0, RiskLevel::Low);
    let mut c = item("c", 0, RiskLevel::Low);
    c.last_sign_in = stamp(2_000);
    let items = vec![a, b, c];
    let mut t = AuditAppsPane::new();
    t.click_heading(SortCol::LastSignIn);
    assert_eq!(t.visible(&markers(), &items), vec![2, 0, 1]);
    t.click_heading(SortCol::LastSignIn);
    assert_eq!(t.visible(&markers(), &items), vec![1, 0, 2]);
    assert_eq!(sort_glyph(t.sort, SortCol::LastSignIn), " ↑");
    assert_eq!(toggle_sort(t.sort, SortCol::LastSignIn), None);
    assert!(matches!(last_sign_in_cell(&items[0]), SignInCell::Unavailable));
    let known = AuditItem { sign_in_report_available: true, last_sign_in: stamp(0), ..blank() };
    match last_sign_in_cell(&known) {
        SignInCell::On(d) => assert_eq!(d, "1970-01-01"),
        other => panic!("{other:?}"),
    }
    let never = AuditItem { sign_in_report_available: true, ..blank() };
    assert!(matches!(last_sign_in_cell(&never), SignInCell::Never));
}

#[test]
fn a_row_shows_two_issues() {
    let of = |n: usize| AuditItem { issues: vec!["x".to_string(); n], ..blank() };
    assert_eq!(issue_cell(&of(1)).more, None);
    let five = issue_cell(&of(5));
    assert_eq!(five.shown.len(), 2);
    assert_eq!(five.more.as_deref(), Some("+3 more — open to see all"));
}

#[test]
fn a_row_opens_its_own_pane() {
    let mut sp = item("Sp", 0, RiskLevel::Low);
    sp.principal_kind = AuditPrincipalKind::ServicePrincipal;
    sp.remediations = vec![fix(RemediationKind::ScopeMailboxAccess)];
    let a = row_actions(&markers(), &sp, None);
    assert_eq!(a.pane, DetailPane::Enterprise);
    assert!(a.mailbox.is_some() && a.expired.is_none());
    assert!(matches!(a.scope_target, ScopeFixTarget::ServicePrincipal { .. }));
    assert_eq!(a.scope_target.row_id(), "Sp-obj");
    let groups = group_findings(&markers(), &[]);
    let expired = groups.iter().find(|g| g.spec.key == "expired").unwrap();
    let under = row_actions(&markers(), &sp, Some(&expired.spec));
    assert!(under.mailbox.is_none());
    assert_eq!(under.tab, "credentials");
}

#[test]
fn the_dashboard_counts_what_its_cards_open() {
    let mut mail = item("Mail", 3, RiskLevel::Critical);
    mail.issues = vec![format!("{}: Mail.Read", markers().org_wide_mailbox)];
    let mut soon = item("Soon", 1, RiskLevel::Low);
    soon.credential_status = CredentialStatus::ExpiringSoon;
    let mut v = AuditView::new();
    assert!(v.screen(&markers()).is_none());
    let items = vec![mail, soon];
    let cards = posture_cards(&markers(), &items);
    v.run.result = Some(run(items));
    for c in &cards {
        v.set_facet(c.target);
        let s = v.screen(&markers()).unwrap();
        assert_eq!(s.rows.len(), c.n, "{}", c.label);
        assert_eq!(s.empty.is_some(), c.n == 0);
    }
    v.set_facet("all");
    v.set_search("soon");
    assert_eq!(v.screen(&markers()).unwrap().rows, vec![1]);
    v.set_search("");
    v.click_heading(SortCol::Name);
    assert_eq!(v.screen(&markers()).unwrap().rows, vec![0, 1]);
    v.show_more();
    assert_eq!(v.window.limit, 400);
    v.run_changed(None, None);
    assert_eq!(v.window.limit, 400);
    v.run_changed(None, Some(0));
    assert_eq!(v.window.limit, 200);
    assert!(empty_facet_message("unused", false).contains("AuditLog.Read.All"));
    assert_eq!(empty_facet_message("unused", true), "No applications match this filter.");
}
