//! What one row of the audit offers: where "Open" leads, and which fixes it
//! shows.

use crate::audit::{
    AuditItem, AuditPrincipalKind, CredentialStatus, IssueMarkers, RemediationAction,
    RemediationKind,
};
use crate::audit_view::filter::{any_marked, FindingMarker};
use crate::audit_view::groups::{group_remediation_kinds, row_fixes, GroupSpec};
use crate::dialogs::scope_remediation::ScopeFixTarget;
use crate::text::{has_prefix, occurs_in, same, texts};
use vstd::prelude::*;

verus! {

/// Some issue line of the item opens with `prefix`.
pub open spec fn opens_a_line(item: AuditItem, prefix: Seq<char>) -> bool {
    exists|k: int|
        0 <= k < item.issues@.len() && prefix.is_prefix_of(#[trigger] item.issues@[k]@)
}

/// The item has a finding that is acted on under permissions.
pub open spec fn permission_finding(m: IssueMarkers, item: AuditItem) -> bool {
    ||| opens_a_line(item, m.org_wide_mailbox@)
    ||| any_marked(m, FindingMarker::ScopedMailbox, item)
    ||| opens_a_line(item, m.legacy_mailbox_policy@)
    ||| opens_a_line(item, m.unconfinable_mailbox@)
    ||| opens_a_line(item, m.unconfinable_sharepoint@)
    ||| opens_a_line(item, m.org_wide_sharepoint@)
    ||| opens_a_line(item, m.scoped_sharepoint@)
    ||| opens_a_line(item, m.high_risk_app_perms@)
    ||| opens_a_line(item, m.high_risk_delegated_perms@)
    ||| opens_a_line(item, m.redundant_app_perms@)
}

/// The most actionable tab over every finding of the item.
pub open spec fn item_tab(m: IssueMarkers, item: AuditItem) -> Seq<char> {
    if permission_finding(m, item) {
        "permissions"@
    } else if opens_a_line(item, m.no_owners@) || opens_a_line(item, m.single_owner@) {
        "owners"@
    } else if item.credential_status is ExpiringSoon || item.credential_status is Expired {
        "credentials"@
    } else {
        "overview"@
    }
}

/// The tab that "Open" leads to: that of the section the row is listed under,
/// else the item's own. The pane of a managed identity has two of the tabs only.
pub open spec fn open_tab(
    m: IssueMarkers,
    item: AuditItem,
    section_tab: Option<Seq<char>>,
) -> Seq<char> {
    let tab = match section_tab {
        Some(t) => t,
        None => item_tab(m, item),
    };
    if item.principal_kind is ManagedIdentity && tab != "overview"@ && tab != "permissions"@ {
        "overview"@
    } else {
        tab
    }
}

pub(crate) fn opens_line(item: &AuditItem, prefix: &str) -> (r: bool)
    ensures
        r == opens_a_line(*item, prefix@),
{
    for k in 0..item.issues.len()
        invariant
            forall|j: int| 0 <= j < k ==> !prefix@.is_prefix_of(#[trigger] item.issues@[j]@),
    {
        if has_prefix(item.issues[k].as_str(), prefix) {
            assert(prefix@.is_prefix_of(item.issues@[k as int]@));
            return true;
        }
    }
    false
}

/// The most actionable tab over every finding of the item.
pub fn scan_item_for_tab(m: &IssueMarkers, item: &AuditItem) -> (r: &'static str)
    ensures
        r@ == item_tab(*m, *item),
{
    if opens_line(item, m.org_wide_mailbox.as_str()) || FindingMarker::ScopedMailbox.marks_item(
        m,
        item,
    ) || opens_line(item, m.legacy_mailbox_policy.as_str()) || opens_line(
        item,
        m.unconfinable_mailbox.as_str(),
    ) || opens_line(item, m.unconfinable_sharepoint.as_str()) || opens_line(
        item,
        m.org_wide_sharepoint.as_str(),
    ) || opens_line(item, m.scoped_sharepoint.as_str()) || opens_line(
        item,
        m.high_risk_app_perms.as_str(),
    ) || opens_line(item, m.high_risk_delegated_perms.as_str()) || opens_line(
        item,
        m.redundant_app_perms.as_str(),
    ) {
        "permissions"
    } else if opens_line(item, m.no_owners.as_str()) || opens_line(item, m.single_owner.as_str()) {
        "owners"
    } else if matches!(
        item.credential_status,
        CredentialStatus::ExpiringSoon | CredentialStatus::Expired
    ) {
        "credentials"
    } else {
        "overview"
    }
}

/// The tab of a section, if the row is listed under one.
pub open spec fn tab_of_section(section: Option<&GroupSpec>) -> Option<Seq<char>> {
    match section {
        Some(s) => Some(s.tab@),
        None => None,
    }
}

/// Which detail tab the row's "Open" leads to. Under a section the section
/// decides, so that "Open" lands where that finding is acted on; a row without
/// one stands for the whole item.
pub fn target_tab(m: &IssueMarkers, item: &AuditItem, section: Option<&GroupSpec>) -> (r:
    &'static str)
    ensures
        r@ == open_tab(*m, *item, tab_of_section(section)),
{
    let tab = match section {
        Some(spec) => spec.tab,
        None => scan_item_for_tab(m, item),
    };
    if item.principal_kind == AuditPrincipalKind::ManagedIdentity && !same(tab, "overview")
        && !same(tab, "permissions") {
        return "overview";
    }
    tab
}

/// The surface may offer the kind.
pub open spec fn allowed(kinds: Option<Seq<RemediationKind>>, kind: RemediationKind) -> bool {
    match kinds {
        Some(list) => list.contains(kind),
        None => true,
    }
}

/// `a` is the first fix of its kind among those of the item.
pub open spec fn first_of_kind(item: AuditItem, kind: RemediationKind, k: int) -> bool {
    &&& 0 <= k < item.remediations@.len()
    &&& item.remediations@[k].kind == kind
    &&& forall|j: int| 0 <= j < k ==> (#[trigger] item.remediations@[j]).kind != kind
}

/// The item has a fix of the kind.
pub open spec fn carries(item: AuditItem, kind: RemediationKind) -> bool {
    exists|k: int|
        0 <= k < item.remediations@.len() && (#[trigger] item.remediations@[k]).kind == kind
}

/// The kinds of a list, if there is one.
pub open spec fn kinds_of(kinds: Option<&Vec<RemediationKind>>) -> Option<Seq<RemediationKind>> {
    match kinds {
        Some(v) => Some(v@),
        None => None,
    }
}

fn lists(kinds: &Vec<RemediationKind>, kind: RemediationKind) -> (r: bool)
    ensures
        r == kinds@.contains(kind),
{
    for k in 0..kinds.len()
        invariant
            forall|j: int| 0 <= j < k ==> kinds@[j] != kind,
    {
        if kinds[k] == kind {
            assert(kinds@[k as int] == kind);
            return true;
        }
    }
    false
}

/// The fix of a kind, if the item carries one and the surface may offer that
/// kind. Without a list of kinds every fix that the item carries shows.
pub fn pick(item: &AuditItem, kinds: Option<&Vec<RemediationKind>>, kind: RemediationKind) -> (r:
    Option<RemediationAction>)
    ensures
        r is Some <==> allowed(kinds_of(kinds), kind) && carries(*item, kind),
        r matches Some(a) ==> exists|k: int| #[trigger]
            first_of_kind(*item, kind, k) && a@ == item.remediations@[k]@,
{
    if let Some(list) = kinds {
        if !lists(list, kind) {
            return None;
        }
    }
    for k in 0..item.remediations.len()
        invariant
            allowed(kinds_of(kinds), kind),
            forall|j: int| 0 <= j < k ==> (#[trigger] item.remediations@[j]).kind != kind,
    {
        if item.remediations[k].kind == kind {
            assert(first_of_kind(*item, kind, k as int));
            return Some(item.remediations[k].copy());
        }
    }
    None
}

/// Which pane "Open" leads to.
#[derive(Clone, Copy, Debug, PartialEq, Eq, Structural)]
pub enum DetailPane {
    AppRegistration,
    Enterprise,
    ManagedIdentity,
}

/// The pane of a kind of principal.
pub open spec fn pane_of(kind: AuditPrincipalKind) -> DetailPane {
    match kind {
        AuditPrincipalKind::Application => DetailPane::AppRegistration,
        AuditPrincipalKind::ServicePrincipal => DetailPane::Enterprise,
        AuditPrincipalKind::ManagedIdentity => DetailPane::ManagedIdentity,
    }
}

/// What one row offers: where "Open" leads, and its fixes.
#[derive(Debug)]
pub struct AuditRowActions {
    pub pane: DetailPane,
    pub object_id: String,
    pub tab: &'static str,
    /// What a scoping fix is to act on.
    pub scope_target: ScopeFixTarget,
    /// What the migration of a mailbox policy is keyed on.
    pub app_id: String,
    pub app_name: String,
    pub expired: Option<RemediationAction>,
    pub redundant: Option<RemediationAction>,
    pub mailbox: Option<RemediationAction>,
    pub migrate: Option<RemediationAction>,
    pub sharepoint: Option<RemediationAction>,
    pub add_owner: Option<RemediationAction>,
    pub disable: Option<RemediationAction>,
}

/// The kinds of fix that a section offers; every kind without a section.
pub open spec fn section_kinds(section: Option<&GroupSpec>) -> Option<Seq<RemediationKind>> {
    match section {
        Some(s) => Some(row_fixes(s.key@)),
        None => None,
    }
}

/// `a` is the item's first fix of the kind, if it carries one and the kind is
/// among those on offer.
pub open spec fn offered(
    item: AuditItem,
    kinds: Option<Seq<RemediationKind>>,
    kind: RemediationKind,
    a: Option<RemediationAction>,
) -> bool {
    &&& a is Some <==> allowed(kinds, kind) && carries(item, kind)
    &&& a matches Some(x) ==> exists|k: int| #[trigger]
        first_of_kind(item, kind, k) && x@ == item.remediations@[k]@
}

/// The target stands for the principal of the item: by its object id alone
/// where there is an app registration, with its own ids where there is none.
pub open spec fn targets(item: AuditItem, t: ScopeFixTarget) -> bool {
    match t {
        ScopeFixTarget::AppReg { object_id } => item.principal_kind is Application && object_id
            == item.object_id,
        ScopeFixTarget::ServicePrincipal { sp_object_id, app_id, display_name } => {
            &&& !(item.principal_kind is Application)
            &&& sp_object_id == item.object_id
            &&& app_id == item.app_id
            &&& display_name == item.application_name
        },
    }
}

/// What one row offers. Under a section a row shows the fix for that rule only,
/// and "Open" leads where that finding is acted on; without one it stands for
/// the whole item and offers everything it carries.
pub fn row_actions(m: &IssueMarkers, item: &AuditItem, section: Option<&GroupSpec>) -> (r:
    AuditRowActions)
    ensures
        r.pane == pane_of(item.principal_kind),
        r.object_id == item.object_id,
        r.tab@ == open_tab(*m, *item, tab_of_section(section)),
        targets(*item, r.scope_target),
        r.app_id == item.app_id,
        r.app_name == item.application_name,
        offered(
            *item,
            section_kinds(section),
            RemediationKind::RemoveExpiredCredentials,
            r.expired,
        ),
        offered(
            *item,
            section_kinds(section),
            RemediationKind::RemoveRedundantPermissions,
            r.redundant,
        ),
        offered(*item, section_kinds(section), RemediationKind::ScopeMailboxAccess, r.mailbox),
        offered(
            *item,
            section_kinds(section),
            RemediationKind::MigrateApplicationAccessPolicy,
            r.migrate,
        ),
        offered(
            *item,
            section_kinds(section),
            RemediationKind::ScopeSharePointAccess,
            r.sharepoint,
        ),
        offered(*item, section_kinds(section), RemediationKind::AddOwner, r.add_owner),
        offered(*item, section_kinds(section), RemediationKind::DisableSignIn, r.disable),
{
    let owned = match section {
        Some(s) => Some(group_remediation_kinds(s.key)),
        None => None,
    };
    let kinds = owned.as_ref();
    let pane = match item.principal_kind {
        AuditPrincipalKind::Application => DetailPane::AppRegistration,
        AuditPrincipalKind::ServicePrincipal => DetailPane::Enterprise,
        AuditPrincipalKind::ManagedIdentity => DetailPane::ManagedIdentity,
    };
    let scope_target = match item.principal_kind {
        AuditPrincipalKind::Application => ScopeFixTarget::AppReg {
            object_id: item.object_id.clone(),
        },
        _ => ScopeFixTarget::ServicePrincipal {
            sp_object_id: item.object_id.clone(),
            app_id: item.app_id.clone(),
            display_name: item.application_name.clone(),
        },
    };
    AuditRowActions {
        pane,
        object_id: item.object_id.clone(),
        tab: target_tab(m, item, section),
        scope_target,
        app_id: item.app_id.clone(),
        app_name: item.application_name.clone(),
        expired: pick(item, kinds, RemediationKind::RemoveExpiredCredentials),
        redundant: pick(item, kinds, RemediationKind::RemoveRedundantPermissions),
        mailbox: pick(item, kinds, RemediationKind::ScopeMailboxAccess),
        migrate: pick(item, kinds, RemediationKind::MigrateApplicationAccessPolicy),
        sharepoint: pick(item, kinds, RemediationKind::ScopeSharePointAccess),
        add_owner: pick(item, kinds, RemediationKind::AddOwner),
        disable: pick(item, kinds, RemediationKind::DisableSignIn),
    }
}

/// "Open" on a managed identity never leads to a tab that its pane lacks.
pub proof fn managed_identities_open_on_tabs_they_have(
    m: IssueMarkers,
    item: AuditItem,
    section_tab: Option<Seq<char>>,
)
    requires
        item.principal_kind is ManagedIdentity,
    ensures
        open_tab(m, item, section_tab) == "overview"@ || open_tab(m, item, section_tab)
            == "permissions"@,
{
}

/// Under a section the section decides where "Open" leads, whatever else the
/// item was found to have.
pub proof fn the_section_decides_the_tab(m: IssueMarkers, item: AuditItem, tab: Seq<char>)
    requires
        !(item.principal_kind is ManagedIdentity),
    ensures
        open_tab(m, item, Some(tab)) == tab,
{
}

/// The fix that a scoping dialog reports as done is that of the row it was
/// opened from.
pub proof fn a_fix_reports_its_own_row(item: AuditItem, t: ScopeFixTarget)
    requires
        targets(item, t),
    ensures
        t.row() == item.object_id@,
{
}

/// Where "Open" leads without a section: to the permissions if some line opens with
/// one of the phrases that speak of them or holds the one of confined mailboxes; else
/// to the owners if some line speaks of them; else to the credentials if they have
/// lapsed or are about to; else to the overview. A managed identity, which has no
/// tab for owners or credentials, opens on the overview instead.
pub proof fn open_leads_to_the_most_actionable_tab(m: IssueMarkers, item: AuditItem)
    ensures
        ({
            let permissions = exists|k: int|
                0 <= k < item.issues@.len()
                    && (m.org_wide_mailbox@.is_prefix_of(#[trigger] item.issues@[k]@)
                    || m.legacy_mailbox_policy@.is_prefix_of(item.issues@[k]@)
                    || m.unconfinable_mailbox@.is_prefix_of(item.issues@[k]@)
                    || m.unconfinable_sharepoint@.is_prefix_of(item.issues@[k]@)
                    || m.org_wide_sharepoint@.is_prefix_of(item.issues@[k]@)
                    || m.scoped_sharepoint@.is_prefix_of(item.issues@[k]@)
                    || m.high_risk_app_perms@.is_prefix_of(item.issues@[k]@)
                    || m.high_risk_delegated_perms@.is_prefix_of(item.issues@[k]@)
                    || m.redundant_app_perms@.is_prefix_of(item.issues@[k]@)
                    || occurs_in(m.scoped_via_rbac@, item.issues@[k]@));
            let owners = exists|k: int|
                0 <= k < item.issues@.len()
                    && (m.no_owners@.is_prefix_of(#[trigger] item.issues@[k]@)
                    || m.single_owner@.is_prefix_of(item.issues@[k]@));
            let credentials = item.credential_status is ExpiringSoon
                || item.credential_status is Expired;
            let tab = open_tab(m, item, None);
            &&& permissions ==> tab == "permissions"@
            &&& !permissions && owners && !(item.principal_kind is ManagedIdentity) ==> tab
                == "owners"@
            &&& !permissions && !owners && credentials && !(item.principal_kind is ManagedIdentity)
                ==> tab == "credentials"@
            &&& !permissions && (item.principal_kind is ManagedIdentity || (!owners && !credentials))
                ==> tab == "overview"@
        }),
{
    reveal_strlit("credentials");
    assert("credentials"@.len() == 11);
    reveal_strlit("owners");
    assert("owners"@.len() == 6);
    reveal_strlit("overview");
    assert("overview"@.len() == 8);
    reveal_strlit("permissions");
    assert("permissions"@.len() == 11);
    assert("credentials"@[0] == 'c');
    assert("permissions"@[0] == 'p');
    assert(any_marked(m, FindingMarker::ScopedMailbox, item) <==> exists|k: int|
        0 <= k < item.issues@.len() && occurs_in(m.scoped_via_rbac@, #[trigger] item.issues@[k]@));
}

/// A fix is on offer exactly if the surface may offer its kind and the item carries
/// one, and then it is the first one of that kind: no other fix, and nobody else's.
pub proof fn a_fix_on_offer_is_the_items_own(
    item: AuditItem,
    kinds: Option<Seq<RemediationKind>>,
    kind: RemediationKind,
    a: Option<RemediationAction>,
)
    requires
        offered(item, kinds, kind, a),
    ensures
        kinds matches Some(list) ==> !list.contains(kind) ==> a is None,
        (forall|k: int|
            0 <= k < item.remediations@.len() ==> (#[trigger] item.remediations@[k]).kind != kind)
            ==> a is None,
        (kinds matches Some(list) ==> list.contains(kind)) && (exists|k: int|
            0 <= k < item.remediations@.len() && (#[trigger] item.remediations@[k]).kind == kind)
            ==> a is Some,
        a matches Some(x) ==> x.kind == kind && exists|k: int|
            0 <= k < item.remediations@.len() && (#[trigger] item.remediations@[k]).kind == kind
                && (forall|j: int| 0 <= j < k ==> (#[trigger] item.remediations@[j]).kind != kind)
                && x.label@ == item.remediations@[k].label@ && x.detail@
                == item.remediations@[k].detail@ && texts(x.targets@) == texts(
                item.remediations@[k].targets@,
            ),
{
    if let Some(x) = a {
        let k = choose|k: int| #[trigger]
            first_of_kind(item, kind, k) && x@ == item.remediations@[k]@;
        assert(x@.kind == item.remediations@[k]@.kind);
        assert(x@.label == item.remediations@[k]@.label);
        assert(x@.detail == item.remediations@[k]@.detail);
        assert(x@.targets == item.remediations@[k]@.targets);
    }
}

/// Each kind of principal opens in its own pane, and a scoping fix is aimed by the
/// object id alone where there is an app registration, and by the principal's own
/// ids and name where there is none.
pub proof fn each_principal_is_met_where_it_lives(item: AuditItem, t: ScopeFixTarget)
    requires
        targets(item, t),
    ensures
        pane_of(AuditPrincipalKind::Application) is AppRegistration,
        pane_of(AuditPrincipalKind::ServicePrincipal) is Enterprise,
        pane_of(AuditPrincipalKind::ManagedIdentity) is ManagedIdentity,
        item.principal_kind is Application <==> t is AppReg,
        t matches ScopeFixTarget::AppReg { object_id } ==> object_id == item.object_id,
        t matches ScopeFixTarget::ServicePrincipal { sp_object_id, app_id, display_name }
            ==> sp_object_id == item.object_id && app_id == item.app_id && display_name
            == item.application_name,
{
}

/// Under a section a row offers the fixes of that finding alone, and leads to its
/// tab; without one it is bound to no kind.
pub proof fn a_section_binds_its_rows(section: Option<&GroupSpec>)
    ensures
        section matches Some(s) ==> section_kinds(section) == Some(row_fixes(s.key@))
            && tab_of_section(section) == Some(s.tab@),
        section is None ==> section_kinds(section) is None && tab_of_section(section) is None,
{
}

} // verus!
