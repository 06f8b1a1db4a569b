use azapptoolkit_views::audit::{
    AuditItem, AuditPrincipalKind, CredentialStatus, IssueMarkers, RiskLevel,
};
use azapptoolkit_views::audit_view::filter::{
    filter_indices, issue_lines_for, matches_finding, matches_severity,
};

fn markers() -> IssueMarkers {
    let s = |t: &str| t.to_string();
    IssueMarkers {
        high_risk_app_perms: s("High-risk application permissions"),
        high_risk_delegated_perms: s("High-risk delegated permissions"),
        org_wide_mailbox: s("Org-wide mailbox access"),
        scoped_via_rbac: s("scoped via Exchange RBAC"),
        legacy_mailbox_policy: s("Mailbox access confined by a legacy policy"),
        unconfinable_mailbox: s("Mailbox access that cannot be confined"),
        org_wide_sharepoint: s("Org-wide SharePoint access"),
        scoped_sharepoint: s("SharePoint scoped to selected sites"),
        unconfinable_sharepoint: s("SharePoint access that cannot be confined"),
        redundant_app_perms: s("Redundant application permissions"),
        no_owners: s("No owners"),
        single_owner: s("Single owner"),
        multitenant_audience: s("Multi-tenant audience"),
        unverified_publisher: s("Unverified publisher"),
    }
}

fn blank() -> AuditItem {
    AuditItem {
        application_name: "App".into(),
        app_id: "app-1".into(),
        object_id: "obj-1".into(),
        risk_score: 0,
        risk_level: RiskLevel::Low,
        issues: vec![],
        remediations: vec![],
        credential_status: CredentialStatus::Active,
        last_sign_in: None,
        unused: false,
        sign_in_report_available: false,
        principal_kind: AuditPrincipalKind::Application,
    }
}

fn with_issue(text: String) -> AuditItem {
    AuditItem {
        issues: vec![text],
        ..blank()
    }
}

fn named(name: &str, app_id: &str, level: RiskLevel) -> AuditItem {
    AuditItem {
        application_name: name.into(),
        app_id: app_id.into(),
        risk_level: level,
        ..blank()
    }
}

#[test]
fn external_exposure_matches_either_marker() {
    let audience = with_issue(format!(
        "{} — reaches any Entra tenant",
        markers().multitenant_audience
    ));
    let publisher = with_issue(format!(
        "{} — cannot be attributed",
        markers().unverified_publisher
    ));
    let unrelated = with_issue(format!("{} Mail.Read", markers().high_risk_app_perms));
    assert!(matches_finding(&markers(), &audience, "external_exposure"));
    assert!(matches_finding(&markers(), &publisher, "external_exposure"));
    assert!(!matches_finding(&markers(), &unrelated, "external_exposure"));
}


#[test]
fn filter_indices_empty_query_keeps_severity_matches_in_order() {
    let items = vec![
        named("Alpha", "aaa", RiskLevel::Critical),
        named("Beta", "bbb", RiskLevel::Low),
        named("Gamma", "ccc", RiskLevel::Critical),
    ];
    assert_eq!(filter_indices(&markers(), &items, "all", "all", ""), vec![0, 1, 2]);
    assert_eq!(filter_indices(&markers(), &items, "critical", "all", ""), vec![0, 2]);
    assert_eq!(filter_indices(&markers(), &items, "low", "all", ""), vec![1]);
}

#[test]
fn filter_filter_indices_query_matches_name_or_appid_case_insensitively() {
    let items = vec![
        named("Payroll API", "1111-aaaa", RiskLevel::Low),
        named("HR Sync", "2222-bbbb", RiskLevel::Low),
    ];
    assert_eq!(filter_indices(&markers(), &items, "all", "all", "payroll"), vec![0]);
    assert_eq!(filter_indices(&markers(), &items, "all", "all", "2222"), vec![1]);
    assert!(filter_indices(&markers(), &items, "all", "all", "zzz").is_empty());
}

#[test]
fn filter_indices_combines_severity_and_query_as_intersection() {
    let items = vec![
        named("Critical Payroll", "aaa", RiskLevel::Critical),
        named("Low Payroll", "bbb", RiskLevel::Low),
        named("Critical Other", "ccc", RiskLevel::Critical),
    ];
    assert_eq!(
        filter_indices(&markers(), &items, "critical", "all", "payroll"),
        vec![0]
    );
    assert_eq!(
        filter_indices(&markers(), &items, "high", "all", "payroll"),
        Vec::<usize>::new()
    );
}

#[test]
fn filter_indices_intersects_severity_and_finding() {
    let expired_critical = AuditItem {
        risk_level: RiskLevel::Critical,
        credential_status: CredentialStatus::Expired,
        ..blank()
    };
    let active_critical = AuditItem {
        risk_level: RiskLevel::Critical,
        credential_status: CredentialStatus::Active,
        ..blank()
    };
    let expired_low = AuditItem {
        risk_level: RiskLevel::Low,
        credential_status: CredentialStatus::Expired,
        ..blank()
    };
    let expiring_soon_critical = AuditItem {
        risk_level: RiskLevel::Critical,
        credential_status: CredentialStatus::ExpiringSoon,
        ..blank()
    };
    let items = vec![
        expired_critical,
        active_critical,
        expired_low,
        expiring_soon_critical,
    ];
    assert_eq!(filter_indices(&markers(), &items, "critical", "expired", ""), vec![0]);
    assert_eq!(filter_indices(&markers(), &items, "critical", "all", ""), vec![0, 1, 3]);
    assert_eq!(filter_indices(&markers(), &items, "all", "expired", ""), vec![0, 2]);
}

#[test]
fn filter_filter_indices_indices_address_the_original_slice() {
    let items = vec![
        named("keep me", "aaa", RiskLevel::Low),
        named("skip", "bbb", RiskLevel::Low),
        named("keep me too", "ccc", RiskLevel::Low),
    ];
    let idx = filter_indices(&markers(), &items, "all", "all", "keep");
    assert_eq!(idx, vec![0, 2]);
    for i in idx {
        assert!(items[i].application_name.contains("keep"));
    }
}

#[test]
fn matches_severity_matches_only_its_own_bucket() {
    let crit = named("c", "c", RiskLevel::Critical);
    assert!(matches_severity(&crit, "all"));
    assert!(matches_severity(&crit, "critical"));
    assert!(!matches_severity(&crit, "high"));
    assert!(!matches_severity(&crit, "medium"));
    assert!(!matches_severity(&crit, "low"));
    let low = named("l", "l", RiskLevel::Low);
    assert!(matches_severity(&low, "low"));
    assert!(!matches_severity(&low, "critical"));
}

#[test]
fn issue_marker_findings_match_exactly_their_finding() {
    let cases = [
        (
            format!("{} something", markers().high_risk_app_perms),
            "high_risk_perms",
        ),
        (
            format!("{} something", markers().high_risk_delegated_perms),
            "high_risk_delegated",
        ),
        (
            format!("{} something", markers().org_wide_mailbox),
            "orgwide_mailbox",
        ),
        (
            format!("{} something", markers().legacy_mailbox_policy),
            "legacy_mailbox_scope",
        ),
        (
            format!("{} something", markers().org_wide_sharepoint),
            "orgwide_sharepoint",
        ),
        (
            format!("{} something", markers().scoped_sharepoint),
            "scoped_sites",
        ),
        (format!("{} something", markers().no_owners), "ownership"),
        (
            format!("{} something", markers().redundant_app_perms),
            "redundant_perms",
        ),
    ];
    let marker_findings = [
        "high_risk_perms",
        "high_risk_delegated",
        "orgwide_mailbox",
        "scoped_mailbox",
        "legacy_mailbox_scope",
        "orgwide_sharepoint",
        "scoped_sites",
        "ownership",
        "redundant_perms",
    ];
    for (text, expect) in &cases {
        let item = with_issue(text.clone());
        for f in marker_findings {
            assert_eq!(
                matches_finding(&markers(), &item, f),
                f == *expect,
                "issue {text:?} vs finding {f}"
            );
        }
    }
}

#[test]
fn no_local_app_finding_matches_sp_and_mi_kinds_only() {
    let app = blank();
    let sp = AuditItem {
        principal_kind: AuditPrincipalKind::ServicePrincipal,
        ..blank()
    };
    let mi = AuditItem {
        principal_kind: AuditPrincipalKind::ManagedIdentity,
        ..blank()
    };
    assert!(!matches_finding(&markers(), &app, "no_local_app"));
    assert!(matches_finding(&markers(), &sp, "no_local_app"));
    assert!(matches_finding(&markers(), &mi, "no_local_app"));
    for f in ["high_risk_perms", "orgwide_mailbox", "orgwide_sharepoint"] {
        assert!(!matches_finding(&markers(), &sp, f), "kind alone matched finding {f}");
    }
}

#[test]
fn scoped_mailbox_finding_matches_the_mid_string_marker() {
    let item = with_issue(format!("Mail.Read {} (Sales Team)", markers().scoped_via_rbac));
    assert!(matches_finding(&markers(), &item, "scoped_mailbox"));
    assert!(!matches_finding(&markers(), &item, "orgwide_mailbox"));
}

#[test]
fn issue_lines_for_quotes_only_this_findings_own_lines() {
    let item = AuditItem {
        issues: vec![
            format!(
                "{}: Mail.ReadWrite (Microsoft Graph), Mail.Send",
                markers().org_wide_mailbox
            ),
            format!("{}: Sites.ReadWrite.All", markers().org_wide_sharepoint),
            "Long-lived secrets (>1 year): old-secret".to_string(),
        ],
        ..blank()
    };
    assert_eq!(
        issue_lines_for(&markers(), &item, "orgwide_mailbox"),
        vec![item.issues[0].as_str()]
    );
    assert_eq!(
        issue_lines_for(&markers(), &item, "orgwide_sharepoint"),
        vec![item.issues[1].as_str()]
    );
    assert!(issue_lines_for(&markers(), &item, "ownership").is_empty());
}

#[test]
fn issue_lines_for_covers_multi_marker_and_mid_string_findings() {
    let external = AuditItem {
        issues: vec![
            format!("{} — reaches any Entra tenant", markers().multitenant_audience),
            format!("{} — cannot be attributed", markers().unverified_publisher),
        ],
        ..blank()
    };
    assert_eq!(issue_lines_for(&markers(), &external, "external_exposure").len(), 2);

    let scoped = with_issue(format!(
        "High-risk mailbox permissions {} (reduced risk): Mail.Read",
        markers().scoped_via_rbac
    ));
    assert_eq!(issue_lines_for(&markers(), &scoped, "scoped_mailbox").len(), 1);
}

#[test]
fn issue_lines_for_is_empty_for_structured_and_unknown_findings() {
    let item = AuditItem {
        credential_status: CredentialStatus::Expired,
        unused: true,
        principal_kind: AuditPrincipalKind::ServicePrincipal,
        issues: vec!["All credentials expired: old-secret".to_string()],
        ..blank()
    };
    for key in ["expired", "unused", "no_local_app", "all", "not-a-finding"] {
        assert!(issue_lines_for(&markers(), &item, key).is_empty(), "finding {key}");
    }
}

#[test]
fn legacy_policy_scoping_is_neither_org_wide_nor_healthy_scoped() {
    let item = with_issue(format!("{}: Mail.Read", markers().legacy_mailbox_policy));
    assert!(matches_finding(&markers(), &item, "legacy_mailbox_scope"));
    assert!(!matches_finding(&markers(), &item, "scoped_mailbox"));
    assert!(!matches_finding(&markers(), &item, "orgwide_mailbox"));
}
