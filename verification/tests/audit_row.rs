use azapptoolkit_views::audit::{
    AuditItem, AuditPrincipalKind, CredentialStatus, IssueMarkers, RemediationAction,
    RemediationKind, RiskLevel,
};
use azapptoolkit_views::audit_view::groups::{group_catalog, GroupSpec};
use azapptoolkit_views::audit_view::row::{pick, target_tab};

fn markers() -> IssueMarkers {
    let s = |t: &str| t.to_string();
    IssueMarkers {
        high_risk_app_perms: s("High-risk application permissions"),
        high_risk_delegated_perms: s("High-risk delegated permissions"),
        org_wide_mailbox: s("Org-wide mailbox access"),
        scoped_via_rbac: s("scoped via Exchange RBAC"),
        legacy_mailbox_policy: s("Mailbox access confined by a legacy policy"),
        unconfinable_mailbox: s("Mailbox access that cannot be confined"),
        org_wide_sharepoint: s("Org-wide SharePoint access"),
        scoped_sharepoint: s("SharePoint scoped to selected sites"),
        unconfinable_sharepoint: s("SharePoint access that cannot be confined"),
        redundant_app_perms: s("Redundant application permissions"),
        no_owners: s("No owners"),
        single_owner: s("Single owner"),
        multitenant_audience: s("Multi-tenant audience"),
        unverified_publisher: s("Unverified publisher"),
    }
}

fn blank() -> AuditItem {
    AuditItem {
        application_name: "App".into(),
        app_id: "app-1".into(),
        object_id: "obj-1".into(),
        risk_score: 0,
        risk_level: RiskLevel::Low,
        issues: vec![],
        remediations: vec![],
        credential_status: CredentialStatus::Active,
        last_sign_in: None,
        unused: false,
        sign_in_report_available: false,
        principal_kind: AuditPrincipalKind::Application,
    }
}

fn with_issue(text: String) -> AuditItem {
    AuditItem {
        issues: vec![text],
        ..blank()
    }
}

fn action(kind: RemediationKind) -> RemediationAction {
    RemediationAction {
        kind,
        label: format!("{kind:?}"),
        detail: String::new(),
        targets: Vec::new(),
    }
}

#[test]
fn pick_offers_only_the_kinds_the_surface_owns() {
    let item = AuditItem {
        remediations: vec![
            action(RemediationKind::RemoveExpiredCredentials),
            action(RemediationKind::MigrateApplicationAccessPolicy),
        ],
        ..blank()
    };
    let legacy_only = vec![RemediationKind::MigrateApplicationAccessPolicy];

    assert!(
        pick(
            &item,
            Some(&legacy_only),
            RemediationKind::MigrateApplicationAccessPolicy
        )
        .is_some()
    );
    assert!(
        pick(
            &item,
            Some(&legacy_only),
            RemediationKind::RemoveExpiredCredentials
        )
        .is_none(),
        "a section must not render a sibling rule's Fix"
    );
    assert!(pick(&item, Some(&vec![]), RemediationKind::RemoveExpiredCredentials).is_none());
    assert!(pick(&item, None, RemediationKind::RemoveExpiredCredentials).is_some());
    assert!(pick(&item, None, RemediationKind::MigrateApplicationAccessPolicy).is_some());
    assert!(
        pick(
            &item,
            Some(&vec![RemediationKind::AddOwner]),
            RemediationKind::AddOwner
        )
        .is_none()
    );
}

#[test]
fn row_target_tab_routes_each_marker_to_its_detail_tab() {
    let tab = |text: String| target_tab(&markers(), &with_issue(text), None);
    assert_eq!(tab(format!("{} x", markers().org_wide_mailbox)), "permissions");
    assert_eq!(
        tab(format!("Mail.Read {} (Sales)", markers().scoped_via_rbac)),
        "permissions"
    );
    assert_eq!(
        tab(format!("{} x", markers().org_wide_sharepoint)),
        "permissions"
    );
    assert_eq!(
        tab(format!("{} x", markers().redundant_app_perms)),
        "permissions"
    );
    assert_eq!(tab(format!("{} x", markers().no_owners)), "owners");
    let expired = AuditItem {
        credential_status: CredentialStatus::Expired,
        ..blank()
    };
    assert_eq!(target_tab(&markers(), &expired, None), "credentials");
    assert_eq!(target_tab(&markers(), &blank(), None), "overview");
}

fn spec(key: &str) -> GroupSpec {
    group_catalog()
        .into_iter()
        .find(|s| s.key == key)
        .unwrap_or_else(|| panic!("no group {key}"))
}

#[test]
fn section_decides_the_tab_over_the_item_wide_scan() {
    let both = AuditItem {
        issues: vec![format!("{}: Mail.Read", markers().legacy_mailbox_policy)],
        credential_status: CredentialStatus::Expired,
        ..blank()
    };
    assert_eq!(target_tab(&markers(), &both, None), "permissions", "scan ranks scoping");
    assert_eq!(target_tab(&markers(), &both, Some(&spec("expired"))), "credentials");
    assert_eq!(
        target_tab(&markers(), &both, Some(&spec("legacy_mailbox_scope"))),
        "permissions"
    );
    assert_eq!(target_tab(&markers(), &blank(), Some(&spec("ownership"))), "owners");
    assert_eq!(target_tab(&markers(), &blank(), Some(&spec("unused"))), "overview");
}

#[test]
fn managed_identity_rows_never_deep_link_a_tab_that_pane_lacks() {
    let mi = AuditItem {
        principal_kind: AuditPrincipalKind::ManagedIdentity,
        credential_status: CredentialStatus::Expired,
        ..blank()
    };
    assert_eq!(target_tab(&markers(), &mi, Some(&spec("ownership"))), "overview");
    assert_eq!(target_tab(&markers(), &mi, Some(&spec("expired"))), "overview");
    assert_eq!(
        target_tab(&markers(), &mi, Some(&spec("orgwide_mailbox"))),
        "permissions"
    );
    assert_eq!(target_tab(&markers(), &mi, Some(&spec("no_local_app"))), "overview");
    assert_eq!(target_tab(&markers(), &mi, None), "overview");
    let sp = AuditItem {
        principal_kind: AuditPrincipalKind::ServicePrincipal,
        ..blank()
    };
    assert_eq!(target_tab(&markers(), &sp, Some(&spec("ownership"))), "owners");
}
