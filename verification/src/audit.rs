//! What a security audit reports: one item per principal, with its risk, the
//! issues found, and the fixes on offer.

use crate::text::{copy_strings, texts};
use crate::time::Timestamp;
use vstd::prelude::*;

verus! {

/// Risk bucket of an audited principal.
#[derive(Clone, Copy, Debug, PartialEq, Eq, Structural)]
pub enum RiskLevel {
    Critical,
    High,
    Medium,
    Low,
}

/// State of the credentials on an application.
#[derive(Clone, Copy, Debug, PartialEq, Eq, Structural)]
pub enum CredentialStatus {
    Active,
    ExpiringSoon,
    Expired,
    Unknown,
}

/// What kind of principal an item stands for.
#[derive(Clone, Copy, Debug, PartialEq, Eq, Structural)]
pub enum AuditPrincipalKind {
    /// An app registration of this tenant.
    Application,
    /// A service principal without a local app registration.
    ServicePrincipal,
    /// A managed identity.
    ManagedIdentity,
}

/// A fix that can be applied to an item.
#[derive(Clone, Copy, Debug, PartialEq, Eq, Structural)]
pub enum RemediationKind {
    RemoveExpiredCredentials,
    RemoveRedundantPermissions,
    ScopeMailboxAccess,
    MigrateApplicationAccessPolicy,
    ScopeSharePointAccess,
    AddOwner,
    DisableSignIn,
}

/// A fix on offer for one item: its button, and what it acts on.
#[derive(Debug)]
pub struct RemediationAction {
    pub kind: RemediationKind,
    pub label: String,
    pub detail: String,
    pub targets: Vec<String>,
}

/// A fix, as text.
pub struct RemediationView {
    pub kind: RemediationKind,
    pub label: Seq<char>,
    pub detail: Seq<char>,
    pub targets: Seq<Seq<char>>,
}

impl View for RemediationAction {
    type V = RemediationView;

    open spec fn view(&self) -> RemediationView {
        RemediationView {
            kind: self.kind,
            label: self.label@,
            detail: self.detail@,
            targets: texts(self.targets@),
        }
    }
}

impl RemediationAction {
    /// The same fix once more.
    pub fn copy(&self) -> (r: RemediationAction)
        ensures
            r@ == self@,
            r.kind == self.kind && r.label@ == self.label@ && r.detail@ == self.detail@ && texts(
                r.targets@,
            ) == texts(self.targets@),
    {
        RemediationAction {
            kind: self.kind,
            label: self.label.clone(),
            detail: self.detail.clone(),
            targets: copy_strings(&self.targets),
        }
    }
}

/// One audited principal.
#[derive(Debug)]
pub struct AuditItem {
    pub application_name: String,
    pub app_id: String,
    pub object_id: String,
    pub risk_score: u32,
    pub risk_level: RiskLevel,
    pub issues: Vec<String>,
    pub remediations: Vec<RemediationAction>,
    pub credential_status: CredentialStatus,
    pub last_sign_in: Option<Timestamp>,
    pub unused: bool,
    pub sign_in_report_available: bool,
    pub principal_kind: AuditPrincipalKind,
}

/// The phrases by which the auditor marks its issue lines. All but
/// `scoped_via_rbac` open the line; that one stands in the middle of it.
#[derive(Debug)]
pub struct IssueMarkers {
    pub high_risk_app_perms: String,
    pub high_risk_delegated_perms: String,
    pub org_wide_mailbox: String,
    pub scoped_via_rbac: String,
    pub legacy_mailbox_policy: String,
    pub unconfinable_mailbox: String,
    pub org_wide_sharepoint: String,
    pub scoped_sharepoint: String,
    pub unconfinable_sharepoint: String,
    pub redundant_app_perms: String,
    pub no_owners: String,
    pub single_owner: String,
    pub multitenant_audience: String,
    pub unverified_publisher: String,
}

/// The state of a list row's credentials.
#[derive(Clone, Copy, Debug, PartialEq, Eq, Structural)]
pub enum ListCredentialStatus {
    Active,
    Expiring,
    Expired,
    NoCredentials,
}

/// A change that can be applied to many app registrations at once.
#[derive(Clone, Copy, Debug, PartialEq, Eq, Structural)]
pub enum BulkAction {
    Grant,
    RemoveExpired,
    RemoveRedundant,
    ScopeMailbox,
    ScopeSharePoint,
    AddOwner,
    DisableSignIn,
    Delete,
}

} // verus!
