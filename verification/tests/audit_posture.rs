use azapptoolkit_views::audit::{
    AuditItem, AuditPrincipalKind, CredentialStatus, IssueMarkers, RiskLevel,
};
use azapptoolkit_views::audit_view::filter::filter_indices;
use azapptoolkit_views::audit_view::posture::posture_counts;
use azapptoolkit_views::home_dashboard::HomeDashboard;

fn markers() -> IssueMarkers {
    let s = |t: &str| t.to_string();
    IssueMarkers {
        high_risk_app_perms: s("High-risk application permissions"),
        high_risk_delegated_perms: s("High-risk delegated permissions"),
        org_wide_mailbox: s("Org-wide mailbox access"),
        scoped_via_rbac: s("scoped via Exchange RBAC"),
        legacy_mailbox_policy: s("Mailbox access confined by a legacy policy"),
        unconfinable_mailbox: s("Mailbox access that cannot be confined"),
        org_wide_sharepoint: s("Org-wide SharePoint access"),
        scoped_sharepoint: s("SharePoint scoped to selected sites"),
        unconfinable_sharepoint: s("SharePoint access that cannot be confined"),
        redundant_app_perms: s("Redundant application permissions"),
        no_owners: s("No owners"),
        single_owner: s("Single owner"),
        multitenant_audience: s("Multi-tenant audience"),
        unverified_publisher: s("Unverified publisher"),
    }
}

fn blank() -> AuditItem {
    AuditItem {
        application_name: "App".into(),
        app_id: "app-1".into(),
        object_id: "obj-1".into(),
        risk_score: 0,
        risk_level: RiskLevel::Low,
        issues: vec![],
        remediations: vec![],
        credential_status: CredentialStatus::Active,
        last_sign_in: None,
        unused: false,
        sign_in_report_available: false,
        principal_kind: AuditPrincipalKind::Application,
    }
}

#[test]
fn buckets_count_their_own_signal_only() {
    let critical_expired = AuditItem {
        risk_level: RiskLevel::Critical,
        credential_status: CredentialStatus::Expired,
        ..blank()
    };
    let expiring = AuditItem {
        credential_status: CredentialStatus::ExpiringSoon,
        ..blank()
    };
    let no_owner = AuditItem {
        issues: vec![format!("{} x", markers().no_owners)],
        ..blank()
    };
    let single_owner = AuditItem {
        issues: vec![format!("{} x", markers().single_owner)],
        ..blank()
    };
    let scoped = AuditItem {
        issues: vec![format!("Mail.Read {} (Sales)", markers().scoped_via_rbac)],
        ..blank()
    };
    let sp = AuditItem {
        principal_kind: AuditPrincipalKind::ServicePrincipal,
        ..blank()
    };
    let c = posture_counts(&markers(), &[
        critical_expired,
        expiring,
        no_owner,
        single_owner,
        scoped,
        sp,
    ]);
    assert_eq!(c.critical, 1);
    assert_eq!(c.low, 5);
    assert_eq!(c.expired, 1, "expiring-soon must not count as expired");
    assert_eq!(c.unowned, 2);
    assert_eq!(c.scoped_mailbox, 1, "mid-string marker counts via contains");
    assert_eq!(c.no_local_app, 1);
    assert_eq!(c.unused, 0);
}

#[test]
fn a_posture_number_leads_to_as_many_rows() {
    let m = markers();
    let items = vec![
        AuditItem {
            risk_level: RiskLevel::Critical,
            credential_status: CredentialStatus::Expired,
            ..blank()
        },
        AuditItem {
            risk_level: RiskLevel::High,
            unused: true,
            issues: vec![format!("{} Mail.Read", m.org_wide_mailbox)],
            ..blank()
        },
        AuditItem {
            risk_level: RiskLevel::Medium,
            issues: vec![
                format!("{} Sites.Read.All", m.org_wide_sharepoint),
                format!("{} x", m.single_owner),
            ],
            ..blank()
        },
        AuditItem {
            risk_level: RiskLevel::Critical,
            issues: vec![format!("{} Directory.ReadWrite.All", m.high_risk_app_perms)],
            ..blank()
        },
    ];
    let cards = HomeDashboard::posture_metrics(&posture_counts(&m, &items));
    let numbers: Vec<usize> = cards.iter().map(|c| c.n).collect();
    assert_eq!(numbers, vec![2, 1, 1, 1, 1, 1, 1, 1, 1]);
    for card in cards {
        let facet = card.facet.unwrap();
        assert_eq!(filter_indices(&m, &items, facet, facet, "").len(), card.n, "{facet}");
    }
}
