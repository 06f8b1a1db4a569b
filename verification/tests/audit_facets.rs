use azapptoolkit_views::audit::{
    AuditItem, AuditPrincipalKind, CredentialStatus, IssueMarkers, RiskLevel,
};
use azapptoolkit_views::audit_facets::{filter_indices, matches_facet, target_tab};

fn markers() -> IssueMarkers {
    let s = |t: &str| t.to_string();
    IssueMarkers {
        high_risk_app_perms: s("High-risk application permissions"),
        high_risk_delegated_perms: s("High-risk delegated permissions"),
        org_wide_mailbox: s("Org-wide mailbox access"),
        scoped_via_rbac: s("scoped via Exchange RBAC"),
        legacy_mailbox_policy: s("Mailbox access confined by a legacy policy"),
        unconfinable_mailbox: s("Mailbox access that cannot be confined"),
        org_wide_sharepoint: s("Org-wide SharePoint access"),
        scoped_sharepoint: s("SharePoint scoped to selected sites"),
        unconfinable_sharepoint: s("SharePoint access that cannot be confined"),
        redundant_app_perms: s("Redundant application permissions"),
        no_owners: s("No owners"),
        single_owner: s("Single owner"),
        multitenant_audience: s("Multi-tenant audience"),
        unverified_publisher: s("Unverified publisher"),
    }
}

fn blank() -> AuditItem {
    AuditItem {
        application_name: "App".into(),
        app_id: "app-1".into(),
        object_id: "obj-1".into(),
        risk_score: 0,
        risk_level: RiskLevel::Low,
        issues: vec![],
        remediations: vec![],
        credential_status: CredentialStatus::Active,
        last_sign_in: None,
        unused: false,
        sign_in_report_available: false,
        principal_kind: AuditPrincipalKind::Application,
    }
}

fn with_issue(text: String) -> AuditItem {
    AuditItem {
        issues: vec![text],
        ..blank()
    }
}

fn named(name: &str, app_id: &str, level: RiskLevel) -> AuditItem {
    AuditItem {
        application_name: name.into(),
        app_id: app_id.into(),
        risk_level: level,
        ..blank()
    }
}


#[test]
fn filter_indices_empty_query_keeps_facet_matches_in_order() {
    let items = vec![
        named("Alpha", "aaa", RiskLevel::Critical),
        named("Beta", "bbb", RiskLevel::Low),
        named("Gamma", "ccc", RiskLevel::Critical),
    ];
    assert_eq!(filter_indices(&markers(), &items, "all", ""), vec![0, 1, 2]);
    assert_eq!(filter_indices(&markers(), &items, "critical", ""), vec![0, 2]);
    assert_eq!(filter_indices(&markers(), &items, "low", ""), vec![1]);
}

#[test]
fn audit_view_filter_indices_query_matches_name_or_appid_case_insensitively() {
    let items = vec![
        named("Payroll API", "1111-aaaa", RiskLevel::Low),
        named("HR Sync", "2222-bbbb", RiskLevel::Low),
    ];
    assert_eq!(filter_indices(&markers(), &items, "all", "payroll"), vec![0]);
    assert_eq!(filter_indices(&markers(), &items, "all", "2222"), vec![1]);
    assert!(filter_indices(&markers(), &items, "all", "zzz").is_empty());
}

#[test]
fn filter_indices_combines_facet_and_query_as_intersection() {
    let items = vec![
        named("Critical Payroll", "aaa", RiskLevel::Critical),
        named("Low Payroll", "bbb", RiskLevel::Low),
        named("Critical Other", "ccc", RiskLevel::Critical),
    ];
    assert_eq!(filter_indices(&markers(), &items, "critical", "payroll"), vec![0]);
    assert_eq!(
        filter_indices(&markers(), &items, "high", "payroll"),
        Vec::<usize>::new()
    );
}

#[test]
fn audit_view_filter_indices_indices_address_the_original_slice() {
    let items = vec![
        named("keep me", "aaa", RiskLevel::Low),
        named("skip", "bbb", RiskLevel::Low),
        named("keep me too", "ccc", RiskLevel::Low),
    ];
    let idx = filter_indices(&markers(), &items, "all", "keep");
    assert_eq!(idx, vec![0, 2]);
    for i in idx {
        assert!(items[i].application_name.contains("keep"));
    }
}

#[test]
fn issue_marker_facets_match_exactly_their_facet() {
    let cases = [
        (
            format!("{} something", markers().high_risk_app_perms),
            "high_risk_perms",
        ),
        (
            format!("{} something", markers().high_risk_delegated_perms),
            "high_risk_delegated",
        ),
        (
            format!("{} something", markers().org_wide_mailbox),
            "orgwide_mailbox",
        ),
        (
            format!("{} something", markers().org_wide_sharepoint),
            "orgwide_sharepoint",
        ),
        (
            format!("{} something", markers().scoped_sharepoint),
            "scoped_sites",
        ),
        (format!("{} something", markers().no_owners), "ownership"),
    ];
    let marker_facets = [
        "high_risk_perms",
        "high_risk_delegated",
        "orgwide_mailbox",
        "scoped_mailbox",
        "orgwide_sharepoint",
        "scoped_sites",
        "ownership",
    ];
    for (text, expect) in &cases {
        let item = with_issue(text.clone());
        for f in marker_facets {
            assert_eq!(
                matches_facet(&markers(), &item, f),
                f == *expect,
                "issue {text:?} vs facet {f}"
            );
        }
    }
}

#[test]
fn scoped_mailbox_facet_matches_the_mid_string_marker() {
    let item = with_issue(format!("Mail.Read {} (Sales Team)", markers().scoped_via_rbac));
    assert!(matches_facet(&markers(), &item, "scoped_mailbox"));
    assert!(!matches_facet(&markers(), &item, "orgwide_mailbox"));
}

#[test]
fn audit_view_target_tab_routes_each_marker_to_its_detail_tab() {
    let tab = |text: String| target_tab(&markers(), &with_issue(text));
    assert_eq!(tab(format!("{} x", markers().org_wide_mailbox)), "permissions");
    assert_eq!(
        tab(format!("Mail.Read {} (Sales)", markers().scoped_via_rbac)),
        "permissions"
    );
    assert_eq!(
        tab(format!("{} x", markers().org_wide_sharepoint)),
        "permissions"
    );
    assert_eq!(
        tab(format!("{} x", markers().redundant_app_perms)),
        "permissions"
    );
    assert_eq!(tab(format!("{} x", markers().no_owners)), "owners");
    let expired = AuditItem {
        credential_status: CredentialStatus::Expired,
        ..blank()
    };
    assert_eq!(target_tab(&markers(), &expired), "credentials");
    assert_eq!(target_tab(&markers(), &blank()), "overview");
}
