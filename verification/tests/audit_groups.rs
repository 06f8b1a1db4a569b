use azapptoolkit_views::audit::{
    AuditItem, AuditPrincipalKind, BulkAction, CredentialStatus, IssueMarkers, RiskLevel,
};
use azapptoolkit_views::audit_view::filter::matches_finding;
use azapptoolkit_views::audit_view::groups::{
    group_bulk_actions, group_catalog, group_findings, FindingGroup,
};

fn markers() -> IssueMarkers {
    let s = |t: &str| t.to_string();
    IssueMarkers {
        high_risk_app_perms: s("High-risk application permissions"),
        high_risk_delegated_perms: s("High-risk delegated permissions"),
        org_wide_mailbox: s("Org-wide mailbox access"),
        scoped_via_rbac: s("scoped via Exchange RBAC"),
        legacy_mailbox_policy: s("Mailbox access confined by a legacy policy"),
        unconfinable_mailbox: s("Mailbox access that cannot be confined"),
        org_wide_sharepoint: s("Org-wide SharePoint access"),
        scoped_sharepoint: s("SharePoint scoped to selected sites"),
        unconfinable_sharepoint: s("SharePoint access that cannot be confined"),
        redundant_app_perms: s("Redundant application permissions"),
        no_owners: s("No owners"),
        single_owner: s("Single owner"),
        multitenant_audience: s("Multi-tenant audience"),
        unverified_publisher: s("Unverified publisher"),
    }
}

fn blank() -> AuditItem {
    AuditItem {
        application_name: "App".into(),
        app_id: "app-1".into(),
        object_id: "obj-1".into(),
        risk_score: 0,
        risk_level: RiskLevel::Low,
        issues: vec![],
        remediations: vec![],
        credential_status: CredentialStatus::Active,
        last_sign_in: None,
        unused: false,
        sign_in_report_available: false,
        principal_kind: AuditPrincipalKind::Application,
    }
}

fn with_issue(text: String, score: u32, level: RiskLevel) -> AuditItem {
    AuditItem {
        issues: vec![text],
        risk_score: score,
        risk_level: level,
        ..blank()
    }
}

fn group<'a>(groups: &'a [FindingGroup], key: &str) -> &'a FindingGroup {
    groups
        .iter()
        .find(|g| g.spec.key == key)
        .unwrap_or_else(|| panic!("no group {key}"))
}

#[test]
fn every_group_key_is_a_real_finding_key() {
    let clean = blank();
    for spec in group_catalog() {
        assert!(
            !matches_finding(&markers(), &clean, spec.key),
            "catalog key {:?} matched a finding-less item — unknown key falling through?",
            spec.key
        );
    }
}

#[test]
fn classification_covers_marker_and_structured_findings() {
    let expired = AuditItem {
        credential_status: CredentialStatus::Expired,
        risk_score: 8,
        risk_level: RiskLevel::Medium,
        ..blank()
    };
    let mailbox = with_issue(
        format!("{} Mail.Read", markers().org_wide_mailbox),
        10,
        RiskLevel::High,
    );
    let scoped = with_issue(
        format!("Mail.Read {} (Sales)", markers().scoped_via_rbac),
        0,
        RiskLevel::Low,
    );
    let sp_only = AuditItem {
        principal_kind: AuditPrincipalKind::ServicePrincipal,
        ..blank()
    };
    let items = vec![expired, mailbox, scoped, sp_only];
    let groups = group_findings(&markers(), &items);

    assert_eq!(group(&groups, "expired").item_indices, vec![0]);
    assert_eq!(group(&groups, "orgwide_mailbox").item_indices, vec![1]);
    assert_eq!(group(&groups, "scoped_mailbox").item_indices, vec![2]);
    assert_eq!(group(&groups, "no_local_app").item_indices, vec![3]);
    assert!(group(&groups, "unused").item_indices.is_empty());
}

#[test]
fn actionable_groups_rank_by_impact_then_catalog_order() {
    let expired = AuditItem {
        credential_status: CredentialStatus::Expired,
        risk_score: 8,
        risk_level: RiskLevel::Medium,
        ..blank()
    };
    let owner_a = with_issue(format!("{} x", markers().no_owners), 30, RiskLevel::Critical);
    let owner_b = with_issue(format!("{} x", markers().single_owner), 5, RiskLevel::Low);
    let items = vec![expired, owner_a, owner_b];
    let groups = group_findings(&markers(), &items);

    let order: Vec<&str> = groups.iter().map(|g| g.spec.key).collect();
    let pos = |k: &str| order.iter().position(|x| *x == k).unwrap();
    assert!(
        pos("ownership") < pos("expired"),
        "impact 35 ranks above impact 8: {order:?}"
    );
    assert!(pos("orgwide_mailbox") < pos("orgwide_sharepoint"));
    assert!(pos("scoped_mailbox") > pos("no_local_app"));
    assert!(pos("scoped_sites") > pos("scoped_mailbox"));

    let ownership = group(&groups, "ownership");
    assert_eq!(ownership.impact, 35);
    assert_eq!(ownership.worst, RiskLevel::Critical);
    assert_eq!(ownership.item_indices, vec![1, 2]);
}

#[test]
fn group_bulk_actions_pair_each_fix_with_its_own_rule() {
    assert_eq!(
        group_bulk_actions("expired"),
        vec![BulkAction::RemoveExpired]
    );
    assert_eq!(
        group_bulk_actions("redundant_perms"),
        vec![BulkAction::RemoveRedundant]
    );
    assert_eq!(group_bulk_actions("ownership"), vec![BulkAction::AddOwner]);
    assert_eq!(
        group_bulk_actions("unused"),
        vec![BulkAction::DisableSignIn, BulkAction::Delete]
    );
    assert!(group_bulk_actions("high_risk_perms").is_empty());
    assert!(group_bulk_actions("high_risk_delegated").is_empty());
    assert!(group_bulk_actions("no_local_app").is_empty());
    assert!(group_bulk_actions("scoped_mailbox").is_empty());
}

#[test]
fn healthy_groups_keep_catalog_order_whatever_their_impact() {
    let m = markers();
    let items = vec![with_issue(format!("{} x", m.scoped_sharepoint), 10, RiskLevel::Low)];
    let groups = group_findings(&m, &items);
    let keys: Vec<&str> = groups.iter().map(|g| g.spec.key).collect();
    assert_eq!(keys[keys.len() - 2..], ["scoped_mailbox", "scoped_sites"]);
    assert_eq!(groups[keys.len() - 1].impact, 10);
    assert_eq!(groups[keys.len() - 2].impact, 0);
}

#[test]
fn every_finding_has_one_group() {
    let m = markers();
    let items = vec![with_issue(format!("{} x", m.unverified_publisher), 7, RiskLevel::High)];
    let groups = group_findings(&m, &items);
    assert_eq!(groups[0].spec.key, "external_exposure");
    assert_eq!(groups[0].item_indices, vec![0]);
    let mut keys: Vec<&str> = groups.iter().map(|g| g.spec.key).collect();
    keys.sort();
    assert_eq!(
        keys,
        [
            "expired",
            "external_exposure",
            "high_risk_delegated",
            "high_risk_perms",
            "legacy_mailbox_scope",
            "no_local_app",
            "orgwide_mailbox",
            "orgwide_sharepoint",
            "ownership",
            "redundant_perms",
            "scoped_mailbox",
            "scoped_sites",
            "unused",
        ]
    );
    assert!(group_bulk_actions("external_exposure").is_empty());
    assert_eq!(group(&groups, "external_exposure").spec.tab, "overview");
}
