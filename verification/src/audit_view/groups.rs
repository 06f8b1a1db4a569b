//! Findings, grouped.
//!
//! One catalog entry per finding key, in two sections: actionable findings,
//! ranked by impact, and below them, in catalog order, the healthy configurations.

use crate::audit::{AuditItem, BulkAction, IssueMarkers, RemediationKind, RiskLevel};
use crate::audit_view::filter::{
    has_finding, lemma_finding_keys, lemma_key_shapes, marker_of, matches_finding,
};
use crate::order::{rearranged, sort_rows, Ranking};
use crate::rows::{a_selection_is_exact, positions, selects, RowTest};
use crate::text::same;
use vstd::prelude::*;

verus! {

/// Which section of the findings pane a group is shown in.
#[derive(Clone, Copy, Debug, PartialEq, Eq, Structural)]
pub enum GroupSection {
    /// Ranked by impact; hidden while nobody is affected.
    Actionable,
    /// Access that is confined already, shown below the ranked list in catalog
    /// order.
    Healthy,
}

/// One entry of the catalog of findings.
#[derive(Clone, Copy, Debug)]
pub struct GroupSpec {
    /// Place in the catalog; it breaks ties in the ranking.
    pub position: usize,
    pub key: &'static str,
    pub title: &'static str,
    /// One sentence for the expanded panel.
    pub blurb: &'static str,
    pub section: GroupSection,
    /// The detail tab on which the finding is acted on.
    pub tab: &'static str,
}

/// A catalog entry, as text.
pub struct GroupEntry {
    pub position: usize,
    pub key: Seq<char>,
    pub title: Seq<char>,
    pub blurb: Seq<char>,
    pub section: GroupSection,
    pub tab: Seq<char>,
}

impl View for GroupSpec {
    type V = GroupEntry;

    open spec fn view(&self) -> GroupEntry {
        GroupEntry {
            position: self.position,
            key: self.key@,
            title: self.title@,
            blurb: self.blurb@,
            section: self.section,
            tab: self.tab@,
        }
    }
}

/// The catalog of findings, in the order that breaks ties.
pub open spec fn catalog() -> Seq<GroupEntry> {
    seq![
        GroupEntry {
            position: 0,
            key: "expired"@,
            title: "Expired credentials"@,
            blurb: "Apps holding already-expired secrets or certificates. Removing them can't break a working sign-in — expired credentials can't authenticate."@,
            section: GroupSection::Actionable,
            tab: "credentials"@,
        },
        GroupEntry {
            position: 1,
            key: "orgwide_mailbox"@,
            title: "Org-wide mailbox access"@,
            blurb: "Mail permissions that reach every mailbox in the tenant. Confine them to specific mail-enabled groups via Exchange RBAC for Applications."@,
            section: GroupSection::Actionable,
            tab: "permissions"@,
        },
        GroupEntry {
            position: 2,
            key: "legacy_mailbox_scope"@,
            title: "Legacy mailbox scoping"@,
            blurb: "Mailbox access confined by a deprecated per-app Application Access Policy. Migrate it to RBAC for Applications."@,
            section: GroupSection::Actionable,
            tab: "permissions"@,
        },
        GroupEntry {
            position: 3,
            key: "orgwide_sharepoint"@,
            title: "Org-wide SharePoint access"@,
            blurb: "Sites.* permissions that reach every site collection. Convert them to the Sites.Selected model on the sites the app actually needs."@,
            section: GroupSection::Actionable,
            tab: "permissions"@,
        },
        GroupEntry {
            position: 4,
            key: "redundant_perms"@,
            title: "Redundant permissions"@,
            blurb: "Narrower application permissions a broader held permission already fully covers — pure attack surface, safe to remove."@,
            section: GroupSection::Actionable,
            tab: "permissions"@,
        },
        GroupEntry {
            position: 5,
            key: "ownership"@,
            title: "Missing or single owner"@,
            blurb: "Apps with no owner (accountability gap) or a single owner (vulnerable to departure). Adding an owner is purely additive."@,
            section: GroupSection::Actionable,
            tab: "owners"@,
        },
        GroupEntry {
            position: 6,
            key: "unused"@,
            title: "Unused applications"@,
            blurb: "No sign-in activity in the report window. Disable sign-in (reversible) to verify nothing breaks, or delete when confirmed obsolete."@,
            section: GroupSection::Actionable,
            tab: "overview"@,
        },
        GroupEntry {
            position: 7,
            key: "high_risk_perms"@,
            title: "High-risk application permissions"@,
            blurb: "Broad application permissions (e.g. Mail.ReadWrite, Directory.ReadWrite.All). Reducing them is an admin-judged change — open the app's Permissions tab to review downgrades or scoping."@,
            section: GroupSection::Actionable,
            tab: "permissions"@,
        },
        GroupEntry {
            position: 8,
            key: "high_risk_delegated"@,
            title: "High-risk delegated permissions"@,
            blurb: "Admin-consented delegated scopes with broad reach. Review on the principal's Permissions tab; delegated scopes are requested by name, so removal is admin-judged."@,
            section: GroupSection::Actionable,
            tab: "permissions"@,
        },
        GroupEntry {
            position: 9,
            key: "external_exposure"@,
            title: "External exposure"@,
            blurb: "Apps that accept sign-ins from outside this directory, with or without a verified publisher. Narrowing the audience or verifying the publisher is an admin-judged change — open the app to review it."@,
            section: GroupSection::Actionable,
            tab: "overview"@,
        },
        GroupEntry {
            position: 10,
            key: "no_local_app"@,
            title: "No local app registration"@,
            blurb: "Foreign-tenant enterprise apps, managed identities, and orphaned service principals — scored from their granted roles. Credentials and manifest live in their home tenant; scope fixes still apply here."@,
            section: GroupSection::Actionable,
            tab: "overview"@,
        },
        GroupEntry {
            position: 11,
            key: "scoped_mailbox"@,
            title: "Mailbox access scoped"@,
            blurb: "Mail permissions confirmed confined to specific mailboxes via Exchange RBAC — the configuration the org-wide fix moves apps toward."@,
            section: GroupSection::Healthy,
            tab: "permissions"@,
        },
        GroupEntry {
            position: 12,
            key: "scoped_sites"@,
            title: "SharePoint scoped to selected sites"@,
            blurb: "SharePoint access on the least-privilege Sites.Selected model."@,
            section: GroupSection::Healthy,
            tab: "permissions"@,
        },
    ]
}

/// `spec` is the catalog entry at its position.
pub open spec fn listed(spec: GroupSpec) -> bool {
    spec.position < catalog().len() && spec@ == catalog()[spec.position as int]
}

/// The catalog of findings, in the order that breaks ties.
pub fn group_catalog() -> (r: Vec<GroupSpec>)
    ensures
        r@.len() == catalog().len(),
        forall|i: int| 0 <= i < r@.len() ==> (#[trigger] r@[i]).position == i && listed(r@[i]),
{
    let mut out: Vec<GroupSpec> = Vec::new();
    out.push(
        GroupSpec {
            position: 0,
            key: "expired",
            title: "Expired credentials",
            blurb: "Apps holding already-expired secrets or certificates. Removing them can't break a working sign-in — expired credentials can't authenticate.",
            section: GroupSection::Actionable,
            tab: "credentials",
        },
    );
    out.push(
        GroupSpec {
            position: 1,
            key: "orgwide_mailbox",
            title: "Org-wide mailbox access",
            blurb: "Mail permissions that reach every mailbox in the tenant. Confine them to specific mail-enabled groups via Exchange RBAC for Applications.",
            section: GroupSection::Actionable,
            tab: "permissions",
        },
    );
    out.push(
        GroupSpec {
            position: 2,
            key: "legacy_mailbox_scope",
            title: "Legacy mailbox scoping",
            blurb: "Mailbox access confined by a deprecated per-app Application Access Policy. Migrate it to RBAC for Applications.",
            section: GroupSection::Actionable,
            tab: "permissions",
        },
    );
    out.push(
        GroupSpec {
            position: 3,
            key: "orgwide_sharepoint",
            title: "Org-wide SharePoint access",
            blurb: "Sites.* permissions that reach every site collection. Convert them to the Sites.Selected model on the sites the app actually needs.",
            section: GroupSection::Actionable,
            tab: "permissions",
        },
    );
    out.push(
        GroupSpec {
            position: 4,
            key: "redundant_perms",
            title: "Redundant permissions",
            blurb: "Narrower application permissions a broader held permission already fully covers — pure attack surface, safe to remove.",
            section: GroupSection::Actionable,
            tab: "permissions",
        },
    );
    out.push(
        GroupSpec {
            position: 5,
            key: "ownership",
            title: "Missing or single owner",
            blurb: "Apps with no owner (accountability gap) or a single owner (vulnerable to departure). Adding an owner is purely additive.",
            section: GroupSection::Actionable,
            tab: "owners",
        },
    );
    out.push(
        GroupSpec {
            position: 6,
            key: "unused",
            title: "Unused applications",
            blurb: "No sign-in activity in the report window. Disable sign-in (reversible) to verify nothing breaks, or delete when confirmed obsolete.",
            section: GroupSection::Actionable,
            tab: "overview",
        },
    );
    out.push(
        GroupSpec {
            position: 7,
            key: "high_risk_perms",
            title: "High-risk application permissions",
            blurb: "Broad application permissions (e.g. Mail.ReadWrite, Directory.ReadWrite.All). Reducing them is an admin-judged change — open the app's Permissions tab to review downgrades or scoping.",
            section: GroupSection::Actionable,
            tab: "permissions",
        },
    );
    out.push(
        GroupSpec {
            position: 8,
            key: "high_risk_delegated",
            title: "High-risk delegated permissions",
            blurb: "Admin-consented delegated scopes with broad reach. Review on the principal's Permissions tab; delegated scopes are requested by name, so removal is admin-judged.",
            section: GroupSection::Actionable,
            tab: "permissions",
        },
    );
    out.push(
        GroupSpec {
            position: 9,
            key: "external_exposure",
            title: "External exposure",
            blurb: "Apps that accept sign-ins from outside this directory, with or without a verified publisher. Narrowing the audience or verifying the publisher is an admin-judged change — open the app to review it.",
            section: GroupSection::Actionable,
            tab: "overview",
        },
    );
    out.push(
        GroupSpec {
            position: 10,
            key: "no_local_app",
            title: "No local app registration",
            blurb: "Foreign-tenant enterprise apps, managed identities, and orphaned service principals — scored from their granted roles. Credentials and manifest live in their home tenant; scope fixes still apply here.",
            section: GroupSection::Actionable,
            tab: "overview",
        },
    );
    out.push(
        GroupSpec {
            position: 11,
            key: "scoped_mailbox",
            title: "Mailbox access scoped",
            blurb: "Mail permissions confirmed confined to specific mailboxes via Exchange RBAC — the configuration the org-wide fix moves apps toward.",
            section: GroupSection::Healthy,
            tab: "permissions",
        },
    );
    out.push(
        GroupSpec {
            position: 12,
            key: "scoped_sites",
            title: "SharePoint scoped to selected sites",
            blurb: "SharePoint access on the least-privilege Sites.Selected model.",
            section: GroupSection::Healthy,
            tab: "permissions",
        },
    );
    out
}

/// One finding with the principals it affects: their positions in the run, the
/// worst risk among them, and the sum of their scores.
#[derive(Debug)]
pub struct FindingGroup {
    pub spec: GroupSpec,
    pub item_indices: Vec<usize>,
    pub worst: RiskLevel,
    pub impact: u32,
}

/// How bad a risk level is.
pub open spec fn severity(level: RiskLevel) -> int {
    match level {
        RiskLevel::Critical => 3,
        RiskLevel::High => 2,
        RiskLevel::Medium => 1,
        RiskLevel::Low => 0,
    }
}

/// How bad a risk level is.
pub fn sev_rank(level: RiskLevel) -> (r: u8)
    ensures
        r == severity(level),
{
    match level {
        RiskLevel::Critical => 3,
        RiskLevel::High => 2,
        RiskLevel::Medium => 1,
        RiskLevel::Low => 0,
    }
}

/// The sum of the scores of the items that have the finding.
pub open spec fn impact_of(m: IssueMarkers, items: Seq<AuditItem>, key: Seq<char>) -> nat
    decreases items.len(),
{
    if items.len() == 0 {
        0
    } else {
        impact_of(m, items.drop_last(), key) + if has_finding(m, items.last(), key) {
            items.last().risk_score as nat
        } else {
            0
        }
    }
}

/// The worst risk level among the items that have the finding, `Low` if none
/// has it.
pub open spec fn worst_of(m: IssueMarkers, items: Seq<AuditItem>, key: Seq<char>) -> RiskLevel
    decreases items.len(),
{
    if items.len() == 0 {
        RiskLevel::Low
    } else {
        let before = worst_of(m, items.drop_last(), key);
        let last = items.last();
        if has_finding(m, last, key) && severity(last.risk_level) > severity(before) {
            last.risk_level
        } else {
            before
        }
    }
}

/// The impact of every finding can be counted.
pub open spec fn impacts_fit(m: IssueMarkers, items: Seq<AuditItem>) -> bool {
    forall|i: int|
        0 <= i < catalog().len() ==> impact_of(m, items, #[trigger] catalog()[i].key) <= u32::MAX
}

/// The group holds exactly the items that have its finding.
pub open spec fn describes(m: IssueMarkers, items: Seq<AuditItem>, g: FindingGroup) -> bool {
    &&& listed(g.spec)
    &&& selects(items, |i: AuditItem| has_finding(m, i, g.spec.key@), g.item_indices@)
    &&& g.worst == worst_of(m, items, g.spec.key@)
    &&& g.impact == impact_of(m, items, g.spec.key@)
}

/// Actionable before healthy; among actionable groups the greater impact first.
/// Healthy groups are not ranked among themselves.
pub open spec fn outranks(a: FindingGroup, b: FindingGroup) -> bool {
    match (a.spec.section, b.spec.section) {
        (GroupSection::Actionable, GroupSection::Actionable) => a.impact >= b.impact,
        (GroupSection::Actionable, GroupSection::Healthy) => true,
        (GroupSection::Healthy, GroupSection::Actionable) => false,
        (GroupSection::Healthy, GroupSection::Healthy) => true,
    }
}

/// `a` is shown before `b`: by rank, then by place in the catalog.
pub open spec fn shown_before(a: FindingGroup, b: FindingGroup) -> bool {
    outranks(a, b) && (outranks(b, a) ==> a.spec.position < b.spec.position)
}

struct HasFinding<'a> {
    markers: &'a IssueMarkers,
    key: &'static str,
}

impl<'a> RowTest<AuditItem> for HasFinding<'a> {
    closed spec fn holds(&self, row: AuditItem) -> bool {
        has_finding(*self.markers, row, self.key@)
    }

    fn test(&self, row: &AuditItem) -> (r: bool) {
        matches_finding(self.markers, row, self.key)
    }
}

proof fn lemma_impact_grows(m: IssueMarkers, items: Seq<AuditItem>, key: Seq<char>, n: int)
    requires
        0 <= n <= items.len(),
    ensures
        impact_of(m, items.take(n), key) <= impact_of(m, items, key),
    decreases items.len() - n,
{
    if n < items.len() {
        lemma_impact_grows(m, items, key, n + 1);
        assert(items.take(n + 1).drop_last() =~= items.take(n));
    } else {
        assert(items.take(n) =~= items);
    }
}

/// The group of one catalog entry.
fn group_of(m: &IssueMarkers, items: &[AuditItem], spec: GroupSpec) -> (r: FindingGroup)
    requires
        listed(spec),
        impact_of(*m, items@, spec.key@) <= u32::MAX,
    ensures
        r.spec == spec,
        describes(*m, items@, r),
{
    let test = HasFinding { markers: m, key: spec.key };
    let item_indices = positions(items, &test);
    proof {
        assert((|i: AuditItem| test.holds(i)) =~= (|i: AuditItem| has_finding(*m, i, spec.key@)));
    }
    let mut worst = RiskLevel::Low;
    let mut impact: u32 = 0;
    for k in 0..items.len()
        invariant
            worst == worst_of(*m, items@.take(k as int), spec.key@),
            impact == impact_of(*m, items@.take(k as int), spec.key@),
            impact_of(*m, items@, spec.key@) <= u32::MAX,
    {
        proof {
            assert(items@.take(k as int + 1).drop_last() =~= items@.take(k as int));
            assert(items@.take(k as int + 1).last() == items@[k as int]);
            lemma_impact_grows(*m, items@, spec.key@, k as int + 1);
        }
        if matches_finding(m, &items[k], spec.key) {
            impact = impact + items[k].risk_score;
            if sev_rank(items[k].risk_level) > sev_rank(worst) {
                worst = items[k].risk_level;
            }
        }
    }
    proof {
        assert(items@.take(items@.len() as int) =~= items@);
    }
    FindingGroup { spec, item_indices, worst, impact }
}

struct ByImpact<'a> {
    groups: &'a Vec<FindingGroup>,
}

impl<'a> Ranking for ByImpact<'a> {
    closed spec fn ranks(&self, i: usize) -> bool {
        i < self.groups@.len()
    }

    closed spec fn le(&self, a: usize, b: usize) -> bool {
        outranks(self.groups@[a as int], self.groups@[b as int])
    }

    proof fn lawful(&self, a: usize, b: usize, c: usize) {
    }

    fn may_precede(&self, a: usize, b: usize) -> (r: bool) {
        let x = &self.groups[a];
        let y = &self.groups[b];
        match (x.spec.section, y.spec.section) {
            (GroupSection::Actionable, GroupSection::Actionable) => x.impact >= y.impact,
            (GroupSection::Actionable, GroupSection::Healthy) => true,
            (GroupSection::Healthy, GroupSection::Actionable) => false,
            (GroupSection::Healthy, GroupSection::Healthy) => true,
        }
    }
}

/// The places in the catalog of a list of groups.
pub open spec fn places(groups: Seq<FindingGroup>) -> Seq<usize> {
    groups.map_values(|g: FindingGroup| g.spec.position)
}

/// The numbers below `n`, in order.
pub open spec fn upto(n: nat) -> Seq<usize> {
    Seq::new(n, |i: int| i as usize)
}

/// Every group of the catalog, each with its items, in the order in which they
/// are shown.
pub open spec fn is_ranking(
    m: IssueMarkers,
    items: Seq<AuditItem>,
    groups: Seq<FindingGroup>,
) -> bool {
    &&& groups.len() == catalog().len()
    &&& rearranged(places(groups), upto(catalog().len()))
    &&& forall|k: int| 0 <= k < groups.len() ==> describes(m, items, #[trigger] groups[k])
    &&& forall|j: int, k: int| #![trigger groups[j], groups[k]]
        0 <= j < k < groups.len() ==> shown_before(groups[j], groups[k])
}

/// Sorts the items into every group of the catalog and ranks the groups:
/// actionable ones first, by impact, catalog order breaking ties; then the healthy
/// ones, in catalog order whatever their impact. Groups that affect nobody are in
/// the list too.
pub fn group_findings(m: &IssueMarkers, items: &[AuditItem]) -> (r: Vec<FindingGroup>)
    requires
        impacts_fit(*m, items@),
    ensures
        is_ranking(*m, items@, r@),
{
    let specs = group_catalog();
    let mut groups: Vec<FindingGroup> = Vec::new();
    let mut order: Vec<usize> = Vec::new();
    for k in 0..specs.len()
        invariant
            impacts_fit(*m, items@),
            specs@.len() == catalog().len(),
            forall|i: int|
                0 <= i < specs@.len() ==> (#[trigger] specs@[i]).position == i && listed(specs@[i]),
            groups@.len() == k,
            order@ == upto(k as nat),
            forall|i: int| 0 <= i < k ==> describes(*m, items@, #[trigger] groups@[i])
                && groups@[i].spec.position == i,
    {
        proof {
            assert(listed(specs@[k as int]));
            assert(impact_of(*m, items@, catalog()[k as int].key) <= u32::MAX);
        }
        groups.push(group_of(m, items, specs[k]));
        order.push(k);
        proof {
            assert(order@ =~= upto((k + 1) as nat));
        }
    }
    let ranking = ByImpact { groups: &groups };
    let sorted = sort_rows(&ranking, &order);
    let mut out: Vec<FindingGroup> = Vec::new();
    proof {
        vstd::seq_lib::lemma_multiset_commutative(Seq::<usize>::empty(), sorted@);
        broadcast use vstd::seq_lib::group_to_multiset_ensures;

        assert(sorted@.len() == order@.len()) by {
            assert(sorted@.to_multiset().len() == order@.to_multiset().len());
        }
    }
    for k in 0..sorted.len()
        invariant
            ranking.groups@ == groups@,
            sorted@.len() == catalog().len(),
            groups@.len() == catalog().len(),
            rearranged(sorted@, order@),
            order@ == upto(catalog().len()),
            crate::order::ranked(&ranking, sorted@),
            forall|i: int| 0 <= i < groups@.len() ==> describes(*m, items@, #[trigger] groups@[i])
                && groups@[i].spec.position == i,
            out@.len() == k,
            places(out@) == sorted@.take(k as int),
            forall|i: int| 0 <= i < k ==> describes(*m, items@, #[trigger] out@[i]) && sorted@[i]
                < groups@.len() && out@[i].impact == groups@[sorted@[i] as int].impact
                && out@[i].spec.section == groups@[sorted@[i] as int].spec.section
                && out@[i].spec.position == sorted@[i],
    {
        proof {
            crate::order::lemma_rearranged_members(sorted@, order@, k as int);
            let w = choose|w: int| 0 <= w < order@.len() && order@[w] == sorted@[k as int];
            assert(order@[w] < groups@.len());
        }
        let g = &groups[sorted[k]];
        let ghost before = out@;
        let mut item_indices: Vec<usize> = Vec::new();
        for j in 0..g.item_indices.len()
            invariant
                item_indices@ == g.item_indices@.take(j as int),
        {
            item_indices.push(g.item_indices[j]);
        }
        proof {
            assert(item_indices@ =~= g.item_indices@);
        }
        out.push(
            FindingGroup { spec: g.spec, item_indices, worst: g.worst, impact: g.impact },
        );
        proof {
            assert(places(out@) =~= places(before).push(sorted@[k as int]));
            assert(sorted@.take(k as int + 1) =~= sorted@.take(k as int).push(sorted@[k as int]));
        }
    }
    proof {
        assert(sorted@.take(sorted@.len() as int) =~= sorted@);
        assert forall|j: int, k: int| #![trigger out@[j], out@[k]]
            0 <= j < k < out@.len() implies shown_before(out@[j], out@[k]) by {
            assert(ranking.le(sorted@[j], sorted@[k]));
        }
    }
    out
}

/// Whether the impact of every finding can be counted.
pub fn impacts_in_range(m: &IssueMarkers, items: &[AuditItem]) -> (r: bool)
    ensures
        r == impacts_fit(*m, items@),
{
    let specs = group_catalog();
    for k in 0..specs.len()
        invariant
            specs@.len() == catalog().len(),
            forall|i: int|
                0 <= i < specs@.len() ==> (#[trigger] specs@[i]).position == i && listed(specs@[i]),
            forall|i: int|
                0 <= i < k ==> impact_of(*m, items@, #[trigger] catalog()[i].key) <= u32::MAX,
    {
        let ghost key = catalog()[k as int].key;
        proof {
            assert(listed(specs@[k as int]));
        }
        let mut total: u64 = 0;
        for j in 0..items.len()
            invariant
                key == catalog()[k as int].key,
                k < specs@.len(),
                specs@.len() == catalog().len(),
                specs@[k as int].key@ == key,
                total == impact_of(*m, items@.take(j as int), key),
                total <= u32::MAX,
        {
            proof {
                assert(items@.take(j as int + 1).drop_last() =~= items@.take(j as int));
                assert(items@.take(j as int + 1).last() == items@[j as int]);
                lemma_impact_grows(*m, items@, key, j as int + 1);
            }
            if matches_finding(m, &items[j], specs[k].key) {
                total = total + items[j].risk_score as u64;
            }
            if total > u32::MAX as u64 {
                return false;
            }
        }
        proof {
            assert(items@.take(items@.len() as int) =~= items@);
        }
    }
    true
}

/// The colour of a risk level.
pub open spec fn tone_of(level: RiskLevel) -> Seq<char> {
    match level {
        RiskLevel::Critical => "critical"@,
        RiskLevel::High => "danger"@,
        RiskLevel::Medium => "warning"@,
        RiskLevel::Low => "ok"@,
    }
}

/// The colour of a risk level.
pub fn tone(level: RiskLevel) -> (r: &'static str)
    ensures
        r@ == tone_of(level),
        level is Critical ==> r@ == "critical"@,
        level is High ==> r@ == "danger"@,
        level is Medium ==> r@ == "warning"@,
        level is Low ==> r@ == "ok"@,
{
    match level {
        RiskLevel::Critical => "critical",
        RiskLevel::High => "danger",
        RiskLevel::Medium => "warning",
        RiskLevel::Low => "ok",
    }
}

/// Key, title and colour of the actionable groups, in order.
pub open spec fn headlines(groups: Seq<FindingGroup>) -> Seq<(Seq<char>, Seq<char>, Seq<char>)>
    decreases groups.len(),
{
    if groups.len() == 0 {
        Seq::empty()
    } else {
        let before = headlines(groups.drop_last());
        let g = groups.last();
        if g.spec.section is Actionable {
            before.push((g.spec.key@, g.spec.title@, tone_of(g.worst)))
        } else {
            before
        }
    }
}

/// Key, title and colour as text.
pub open spec fn headline_texts(v: Seq<(&'static str, &'static str, &'static str)>) -> Seq<
    (Seq<char>, Seq<char>, Seq<char>),
> {
    v.map_values(|t: (&'static str, &'static str, &'static str)| (t.0@, t.1@, t.2@))
}

/// Key, title and colour of the actionable groups of a list, in order.
pub fn actionable_headlines(groups: &Vec<FindingGroup>) -> (r: Vec<
    (&'static str, &'static str, &'static str),
>)
    ensures
        headline_texts(r@) == headlines(groups@),
{
    let mut out: Vec<(&'static str, &'static str, &'static str)> = Vec::new();
    proof {
        assert(headline_texts(out@) =~= Seq::empty());
    }
    for k in 0..groups.len()
        invariant
            headline_texts(out@) == headlines(groups@.take(k as int)),
    {
        let g = &groups[k];
        proof {
            assert(groups@.take(k as int + 1).drop_last() =~= groups@.take(k as int));
            assert(groups@.take(k as int + 1).last() == groups@[k as int]);
        }
        let ghost before = out@;
        if matches!(g.spec.section, GroupSection::Actionable) {
            let line = (g.spec.key, g.spec.title, tone(g.worst));
            out.push(line);
            proof {
                assert(headline_texts(out@) =~= headline_texts(before).push(
                    (line.0@, line.1@, line.2@),
                ));
            }
        }
    }
    proof {
        assert(groups@.take(groups@.len() as int) =~= groups@);
    }
    out
}

/// The actionable groups of a run as key, title and colour, ranked as the
/// findings pane ranks them. Groups that affect nobody stay in.
pub fn ranked_actionable_findings(m: &IssueMarkers, items: &[AuditItem]) -> (r: Vec<
    (&'static str, &'static str, &'static str),
>)
    requires
        impacts_fit(*m, items@),
    ensures
        exists|groups: Seq<FindingGroup>| #[trigger]
            is_ranking(*m, items@, groups) && headline_texts(r@) == headlines(groups),
{
    let groups = group_findings(m, items);
    actionable_headlines(&groups)
}

/// The bulk fixes that a finding offers.
pub open spec fn bulk_fixes(key: Seq<char>) -> Seq<BulkAction> {
    if key == "expired"@ {
        seq![BulkAction::RemoveExpired]
    } else if key == "orgwide_mailbox"@ {
        seq![BulkAction::ScopeMailbox]
    } else if key == "orgwide_sharepoint"@ {
        seq![BulkAction::ScopeSharePoint]
    } else if key == "redundant_perms"@ {
        seq![BulkAction::RemoveRedundant]
    } else if key == "ownership"@ {
        seq![BulkAction::AddOwner]
    } else if key == "unused"@ {
        seq![BulkAction::DisableSignIn, BulkAction::Delete]
    } else {
        Seq::empty()
    }
}

/// The bulk fixes that a finding offers, each for the rule that it fixes.
/// Advisory findings offer none.
pub fn group_bulk_actions(key: &str) -> (r: Vec<BulkAction>)
    ensures
        r@ == bulk_fixes(key@),
        key@ == "expired"@ ==> r@ == seq![BulkAction::RemoveExpired],
        key@ == "orgwide_mailbox"@ ==> r@ == seq![BulkAction::ScopeMailbox],
        key@ == "orgwide_sharepoint"@ ==> r@ == seq![BulkAction::ScopeSharePoint],
        key@ == "redundant_perms"@ ==> r@ == seq![BulkAction::RemoveRedundant],
        key@ == "ownership"@ ==> r@ == seq![BulkAction::AddOwner],
        key@ == "unused"@ ==> r@ == seq![BulkAction::DisableSignIn, BulkAction::Delete],
{
    proof {
        lemma_key_shapes();
    }
    if same(key, "expired") {
        vec![BulkAction::RemoveExpired]
    } else if same(key, "orgwide_mailbox") {
        vec![BulkAction::ScopeMailbox]
    } else if same(key, "orgwide_sharepoint") {
        vec![BulkAction::ScopeSharePoint]
    } else if same(key, "redundant_perms") {
        vec![BulkAction::RemoveRedundant]
    } else if same(key, "ownership") {
        vec![BulkAction::AddOwner]
    } else if same(key, "unused") {
        vec![BulkAction::DisableSignIn, BulkAction::Delete]
    } else {
        Vec::new()
    }
}

/// The fixes that the rows of a finding offer.
pub open spec fn row_fixes(key: Seq<char>) -> Seq<RemediationKind> {
    if key == "expired"@ {
        seq![RemediationKind::RemoveExpiredCredentials]
    } else if key == "orgwide_mailbox"@ {
        seq![RemediationKind::ScopeMailboxAccess]
    } else if key == "legacy_mailbox_scope"@ {
        seq![RemediationKind::MigrateApplicationAccessPolicy]
    } else if key == "orgwide_sharepoint"@ {
        seq![RemediationKind::ScopeSharePointAccess]
    } else if key == "redundant_perms"@ {
        seq![RemediationKind::RemoveRedundantPermissions]
    } else if key == "ownership"@ {
        seq![RemediationKind::AddOwner]
    } else if key == "unused"@ {
        seq![RemediationKind::DisableSignIn]
    } else {
        Seq::empty()
    }
}

/// The fixes that the rows of a finding offer: the one for its own rule, none
/// for an advisory finding.
pub fn group_remediation_kinds(key: &str) -> (r: Vec<RemediationKind>)
    ensures
        r@ == row_fixes(key@),
        key@ == "expired"@ ==> r@ == seq![RemediationKind::RemoveExpiredCredentials],
        key@ == "orgwide_mailbox"@ ==> r@ == seq![RemediationKind::ScopeMailboxAccess],
        key@ == "orgwide_sharepoint"@ ==> r@ == seq![RemediationKind::ScopeSharePointAccess],
        key@ == "redundant_perms"@ ==> r@ == seq![RemediationKind::RemoveRedundantPermissions],
        key@ == "ownership"@ ==> r@ == seq![RemediationKind::AddOwner],
        key@ == "unused"@ ==> r@ == seq![RemediationKind::DisableSignIn],
        key@ == "legacy_mailbox_scope"@ ==> r@
            == seq![RemediationKind::MigrateApplicationAccessPolicy],
{
    proof {
        lemma_key_shapes();
    }
    if same(key, "expired") {
        vec![RemediationKind::RemoveExpiredCredentials]
    } else if same(key, "orgwide_mailbox") {
        vec![RemediationKind::ScopeMailboxAccess]
    } else if same(key, "legacy_mailbox_scope") {
        vec![RemediationKind::MigrateApplicationAccessPolicy]
    } else if same(key, "orgwide_sharepoint") {
        vec![RemediationKind::ScopeSharePointAccess]
    } else if same(key, "redundant_perms") {
        vec![RemediationKind::RemoveRedundantPermissions]
    } else if same(key, "ownership") {
        vec![RemediationKind::AddOwner]
    } else if same(key, "unused") {
        vec![RemediationKind::DisableSignIn]
    } else {
        Vec::new()
    }
}

/// An item without issues, expired credentials, idleness or a foreign home is
/// in no group: every catalog key is a real finding.
pub proof fn a_clean_item_is_in_no_group(m: IssueMarkers, item: AuditItem, i: int)
    requires
        0 <= i < catalog().len(),
        item.issues@.len() == 0,
        !(item.credential_status is Expired),
        !item.unused,
        item.principal_kind is Application,
    ensures
        !has_finding(m, item, catalog()[i].key),
{
}

/// In the ranking every actionable group stands before every healthy one.
pub proof fn healthy_groups_come_last(
    m: IssueMarkers,
    items: Seq<AuditItem>,
    groups: Seq<FindingGroup>,
    j: int,
    k: int,
)
    requires
        is_ranking(m, items, groups),
        0 <= j < groups.len(),
        0 <= k < groups.len(),
        groups[j].spec.section is Actionable,
        groups[k].spec.section is Healthy,
    ensures
        j < k,
{
    if k < j {
        assert(shown_before(groups[k], groups[j]));
    }
}

/// Among actionable groups the greater impact stands first, and the catalog
/// decides between equal impacts.
pub proof fn impact_ranks_the_actionable_groups(
    m: IssueMarkers,
    items: Seq<AuditItem>,
    groups: Seq<FindingGroup>,
    j: int,
    k: int,
)
    requires
        is_ranking(m, items, groups),
        0 <= j < k < groups.len(),
        groups[j].spec.section is Actionable,
        groups[k].spec.section is Actionable,
    ensures
        groups[j].impact >= groups[k].impact,
        groups[j].impact == groups[k].impact ==> groups[j].spec.position < groups[k].spec.position,
{
    assert(shown_before(groups[j], groups[k]));
}

/// Healthy groups keep the order of the catalog, whatever their impact.
pub proof fn healthy_groups_keep_catalog_order(
    m: IssueMarkers,
    items: Seq<AuditItem>,
    groups: Seq<FindingGroup>,
    j: int,
    k: int,
)
    requires
        is_ranking(m, items, groups),
        0 <= j < k < groups.len(),
        groups[j].spec.section is Healthy,
        groups[k].spec.section is Healthy,
    ensures
        groups[j].spec.position < groups[k].spec.position,
{
    assert(shown_before(groups[j], groups[k]));
}

/// The key names a finding.
pub open spec fn is_finding_key(key: Seq<char>) -> bool {
    marker_of(key) is Some || key == "expired"@ || key == "unused"@ || key == "no_local_app"@
}

/// The catalog has one entry for every finding, and none for anything else.
pub proof fn the_catalog_lists_every_finding(key: Seq<char>)
    ensures
        is_finding_key(key) <==> exists|i: int|
            0 <= i < catalog().len() && (#[trigger] catalog()[i]).key == key,
        forall|i: int, j: int|
            0 <= i < catalog().len() && 0 <= j < catalog().len() && (#[trigger] catalog()[i]).key
                == (#[trigger] catalog()[j]).key ==> i == j,
{
    lemma_finding_keys();
    let c = catalog();
    reveal_strlit("expired");
    assert("expired"@.len() == 7);
    reveal_strlit("orgwide_mailbox");
    assert("orgwide_mailbox"@.len() == 15);
    reveal_strlit("legacy_mailbox_scope");
    assert("legacy_mailbox_scope"@.len() == 20);
    reveal_strlit("orgwide_sharepoint");
    assert("orgwide_sharepoint"@.len() == 18);
    reveal_strlit("redundant_perms");
    assert("redundant_perms"@.len() == 15);
    reveal_strlit("ownership");
    assert("ownership"@.len() == 9);
    reveal_strlit("unused");
    assert("unused"@.len() == 6);
    reveal_strlit("high_risk_perms");
    assert("high_risk_perms"@.len() == 15);
    reveal_strlit("high_risk_delegated");
    assert("high_risk_delegated"@.len() == 19);
    reveal_strlit("external_exposure");
    assert("external_exposure"@.len() == 17);
    reveal_strlit("no_local_app");
    assert("no_local_app"@.len() == 12);
    reveal_strlit("scoped_mailbox");
    assert("scoped_mailbox"@.len() == 14);
    reveal_strlit("scoped_sites");
    assert("scoped_sites"@.len() == 12);
    assert("orgwide_mailbox"@[0] == 'o');
    assert("redundant_perms"@[0] == 'r');
    assert("high_risk_perms"@[0] == 'h');
    assert("scoped_sites"@[0] == 's');
    assert("no_local_app"@[0] == 'n');
    if is_finding_key(key) {
        assert(c[0].key == "expired"@);
        assert(c[1].key == "orgwide_mailbox"@);
        assert(c[2].key == "legacy_mailbox_scope"@);
        assert(c[3].key == "orgwide_sharepoint"@);
        assert(c[4].key == "redundant_perms"@);
        assert(c[5].key == "ownership"@);
        assert(c[6].key == "unused"@);
        assert(c[7].key == "high_risk_perms"@);
        assert(c[8].key == "high_risk_delegated"@);
        assert(c[9].key == "external_exposure"@);
        assert(c[10].key == "no_local_app"@);
        assert(c[11].key == "scoped_mailbox"@);
        assert(c[12].key == "scoped_sites"@);
    }
}

/// Every finding has exactly one group in a ranking.
pub proof fn every_finding_has_its_group(
    m: IssueMarkers,
    items: Seq<AuditItem>,
    groups: Seq<FindingGroup>,
    key: Seq<char>,
)
    requires
        is_ranking(m, items, groups),
        is_finding_key(key),
    ensures
        exists|k: int| 0 <= k < groups.len() && (#[trigger] groups[k]).spec.key@ == key,
        forall|j: int, k: int|
            0 <= j < groups.len() && 0 <= k < groups.len() && (#[trigger] groups[j]).spec.key@
                == key && (#[trigger] groups[k]).spec.key@ == key ==> j == k,
{
    the_catalog_lists_every_finding(key);
    let n = catalog().len();
    let i = choose|i: int| 0 <= i < n && (#[trigger] catalog()[i]).key == key;
    let all = upto(n);
    assert(all[i] == i as usize);
    assert(places(groups).contains(i as usize)) by {
        broadcast use vstd::seq_lib::group_to_multiset_ensures;

        assert(all.contains(i as usize));
        assert(all.to_multiset().count(i as usize) > 0);
    }
    let k = choose|k: int| 0 <= k < places(groups).len() && places(groups)[k] == i as usize;
    assert(describes(m, items, groups[k]));
    assert(groups[k].spec.key@ == key);
    assert forall|j: int, k: int|
        0 <= j < groups.len() && 0 <= k < groups.len() && (#[trigger] groups[j]).spec.key@ == key
            && (#[trigger] groups[k]).spec.key@ == key implies j == k by {
        assert(describes(m, items, groups[j]) && describes(m, items, groups[k]));
        if j < k {
            assert(shown_before(groups[j], groups[k]));
        } else if k < j {
            assert(shown_before(groups[k], groups[j]));
        }
    }
}

/// The ranking leaves no choice: two rankings of one run show the groups in the
/// same order.
pub proof fn the_ranking_leaves_no_choice(
    m: IssueMarkers,
    items: Seq<AuditItem>,
    s: Seq<FindingGroup>,
    t: Seq<FindingGroup>,
)
    requires
        is_ranking(m, items, s),
        is_ranking(m, items, t),
    ensures
        places(s) == places(t),
{
    let first = |a: usize, b: usize|
        {
            let (x, y) = (catalog()[a as int], catalog()[b as int]);
            match (x.section, y.section) {
                (GroupSection::Actionable, GroupSection::Actionable) => impact_of(m, items, x.key)
                    >= impact_of(m, items, y.key),
                (GroupSection::Actionable, GroupSection::Healthy) => true,
                (GroupSection::Healthy, GroupSection::Actionable) => false,
                (GroupSection::Healthy, GroupSection::Healthy) => true,
            }
        };
    let precedes = |a: usize, b: usize| first(a, b) && (first(b, a) ==> a < b);
    assert forall|j: int, k: int| #![trigger places(s)[j], places(s)[k]] 0 <= j < k
        < places(s).len() implies precedes(places(s)[j], places(s)[k]) by {
        assert(shown_before(s[j], s[k]));
        assert(describes(m, items, s[j]) && describes(m, items, s[k]));
    }
    assert forall|j: int, k: int| #![trigger places(t)[j], places(t)[k]] 0 <= j < k
        < places(t).len() implies precedes(places(t)[j], places(t)[k]) by {
        assert(shown_before(t[j], t[k]));
        assert(describes(m, items, t[j]) && describes(m, items, t[k]));
    }
    crate::order::order_is_unique(precedes, places(s), places(t));
}

/// The worst level of a finding is that of some item that has it, and no item
/// that has it is worse; without such an item it is the lowest.
pub proof fn worst_is_an_upper_bound(m: IssueMarkers, items: Seq<AuditItem>, key: Seq<char>)
    ensures
        forall|i: int|
            0 <= i < items.len() && has_finding(m, #[trigger] items[i], key) ==> severity(
                items[i].risk_level,
            ) <= severity(worst_of(m, items, key)),
        worst_of(m, items, key) is Low || exists|i: int|
            0 <= i < items.len() && has_finding(m, #[trigger] items[i], key)
                && items[i].risk_level == worst_of(m, items, key),
    decreases items.len(),
{
    if items.len() > 0 {
        let init = items.drop_last();
        worst_is_an_upper_bound(m, init, key);
        let w = worst_of(m, items, key);
        assert forall|i: int|
            0 <= i < items.len() && has_finding(m, #[trigger] items[i], key) implies severity(
            items[i].risk_level,
        ) <= severity(w) by {
            if i < init.len() {
                assert(has_finding(m, init[i], key));
            }
        }
        let before = worst_of(m, init, key);
        if w == before && !(w is Low) {
            let i = choose|i: int|
                0 <= i < init.len() && has_finding(m, #[trigger] init[i], key)
                    && init[i].risk_level == before;
            assert(has_finding(m, items[i], key));
        } else if w != before {
            assert(has_finding(m, items[items.len() - 1], key));
        }
    }
}

/// A bulk fix belongs to the rule that it fixes: a finding offers one exactly if its
/// rows offer the fix of the same kind, deleting is on offer for unused applications
/// alone, and consent is never granted from a finding.
pub proof fn a_bulk_fix_belongs_to_its_rule(key: Seq<char>)
    ensures
        bulk_fixes(key).contains(BulkAction::RemoveExpired) <==> row_fixes(key).contains(
            RemediationKind::RemoveExpiredCredentials,
        ),
        bulk_fixes(key).contains(BulkAction::ScopeMailbox) <==> row_fixes(key).contains(
            RemediationKind::ScopeMailboxAccess,
        ),
        bulk_fixes(key).contains(BulkAction::ScopeSharePoint) <==> row_fixes(key).contains(
            RemediationKind::ScopeSharePointAccess,
        ),
        bulk_fixes(key).contains(BulkAction::RemoveRedundant) <==> row_fixes(key).contains(
            RemediationKind::RemoveRedundantPermissions,
        ),
        bulk_fixes(key).contains(BulkAction::AddOwner) <==> row_fixes(key).contains(
            RemediationKind::AddOwner,
        ),
        bulk_fixes(key).contains(BulkAction::DisableSignIn) <==> row_fixes(key).contains(
            RemediationKind::DisableSignIn,
        ),
        bulk_fixes(key).contains(BulkAction::Delete) <==> key == "unused"@,
        !bulk_fixes(key).contains(BulkAction::Grant),
{
    lemma_key_shapes();
    assert(bulk_fixes(key).len() <= 2);
    if key == "expired"@ {
        assert(bulk_fixes(key)[0] == BulkAction::RemoveExpired);
        assert(row_fixes(key)[0] == RemediationKind::RemoveExpiredCredentials);
    }
    if key == "orgwide_mailbox"@ {
        assert(bulk_fixes(key)[0] == BulkAction::ScopeMailbox);
        assert(row_fixes(key)[0] == RemediationKind::ScopeMailboxAccess);
    }
    if key == "orgwide_sharepoint"@ {
        assert(bulk_fixes(key)[0] == BulkAction::ScopeSharePoint);
        assert(row_fixes(key)[0] == RemediationKind::ScopeSharePointAccess);
    }
    if key == "redundant_perms"@ {
        assert(bulk_fixes(key)[0] == BulkAction::RemoveRedundant);
        assert(row_fixes(key)[0] == RemediationKind::RemoveRedundantPermissions);
    }
    if key == "ownership"@ {
        assert(bulk_fixes(key)[0] == BulkAction::AddOwner);
        assert(row_fixes(key)[0] == RemediationKind::AddOwner);
    }
    if key == "unused"@ {
        assert(bulk_fixes(key)[0] == BulkAction::DisableSignIn);
        assert(row_fixes(key)[0] == RemediationKind::DisableSignIn);
    }
    if key == "unused"@ {
        assert(bulk_fixes(key)[1] == BulkAction::Delete);
    }
}

/// The fix of each rule: the rows of a finding offer the one that ends it, and an
/// advisory finding offers none.
pub proof fn each_finding_offers_the_fix_that_ends_it(key: Seq<char>)
    ensures
        row_fixes("expired"@) == seq![RemediationKind::RemoveExpiredCredentials],
        row_fixes("orgwide_mailbox"@) == seq![RemediationKind::ScopeMailboxAccess],
        row_fixes("orgwide_sharepoint"@) == seq![RemediationKind::ScopeSharePointAccess],
        row_fixes("redundant_perms"@) == seq![RemediationKind::RemoveRedundantPermissions],
        row_fixes("ownership"@) == seq![RemediationKind::AddOwner],
        row_fixes("unused"@) == seq![RemediationKind::DisableSignIn],
        row_fixes("legacy_mailbox_scope"@) == seq![RemediationKind::MigrateApplicationAccessPolicy],
        key != "expired"@ && key != "orgwide_mailbox"@ && key != "orgwide_sharepoint"@ && key
            != "redundant_perms"@ && key != "ownership"@ && key != "unused"@ && key
            != "legacy_mailbox_scope"@ ==> row_fixes(key).len() == 0,
        bulk_fixes("expired"@) == seq![BulkAction::RemoveExpired],
        bulk_fixes("orgwide_mailbox"@) == seq![BulkAction::ScopeMailbox],
        bulk_fixes("orgwide_sharepoint"@) == seq![BulkAction::ScopeSharePoint],
        bulk_fixes("redundant_perms"@) == seq![BulkAction::RemoveRedundant],
        bulk_fixes("ownership"@) == seq![BulkAction::AddOwner],
        bulk_fixes("unused"@) == seq![BulkAction::DisableSignIn, BulkAction::Delete],
        key != "expired"@ && key != "orgwide_mailbox"@ && key != "orgwide_sharepoint"@ && key
            != "redundant_perms"@ && key != "ownership"@ && key != "unused"@
            ==> bulk_fixes(key).len() == 0,
{
    lemma_key_shapes();
}

/// The section and the tab of each finding: only access that is confined already is
/// healthy, and a finding is acted on where it lies.
pub proof fn each_finding_has_its_section_and_its_tab(spec: GroupSpec)
    requires
        listed(spec),
    ensures
        spec.section is Healthy <==> spec.key@ == "scoped_mailbox"@ || spec.key@ == "scoped_sites"@,
        spec.tab@ == "credentials"@ <==> spec.key@ == "expired"@,
        spec.tab@ == "owners"@ <==> spec.key@ == "ownership"@,
        spec.tab@ == "overview"@ <==> spec.key@ == "unused"@ || spec.key@ == "external_exposure"@
            || spec.key@ == "no_local_app"@,
        spec.tab@ == "credentials"@ || spec.tab@ == "owners"@ || spec.tab@ == "overview"@
            || spec.tab@ == "permissions"@,
{
    lemma_key_shapes();
    reveal_strlit("credentials");
    assert("credentials"@.len() == 11);
    reveal_strlit("owners");
    assert("owners"@.len() == 6);
    reveal_strlit("overview");
    assert("overview"@.len() == 8);
    reveal_strlit("permissions");
    assert("permissions"@.len() == 11);
    assert("credentials"@[0] == 'c');
    assert("permissions"@[0] == 'p');
}

/// The order of the catalog, which breaks the ties of the ranking, and what each entry
/// says.
pub proof fn the_catalog_stands_in_this_order(spec: GroupSpec)
    requires
        listed(spec),
    ensures
        spec.key@ == "expired"@ <==> spec.position == 0,
        spec.key@ == "orgwide_mailbox"@ <==> spec.position == 1,
        spec.key@ == "legacy_mailbox_scope"@ <==> spec.position == 2,
        spec.key@ == "orgwide_sharepoint"@ <==> spec.position == 3,
        spec.key@ == "redundant_perms"@ <==> spec.position == 4,
        spec.key@ == "ownership"@ <==> spec.position == 5,
        spec.key@ == "unused"@ <==> spec.position == 6,
        spec.key@ == "high_risk_perms"@ <==> spec.position == 7,
        spec.key@ == "high_risk_delegated"@ <==> spec.position == 8,
        spec.key@ == "external_exposure"@ <==> spec.position == 9,
        spec.key@ == "no_local_app"@ <==> spec.position == 10,
        spec.key@ == "scoped_mailbox"@ <==> spec.position == 11,
        spec.key@ == "scoped_sites"@ <==> spec.position == 12,
        spec.key@ == "expired"@ ==> spec.title@ == "Expired credentials"@,
        spec.key@ == "orgwide_mailbox"@ ==> spec.title@ == "Org-wide mailbox access"@,
        spec.key@ == "legacy_mailbox_scope"@ ==> spec.title@ == "Legacy mailbox scoping"@,
        spec.key@ == "orgwide_sharepoint"@ ==> spec.title@ == "Org-wide SharePoint access"@,
        spec.key@ == "redundant_perms"@ ==> spec.title@ == "Redundant permissions"@,
        spec.key@ == "ownership"@ ==> spec.title@ == "Missing or single owner"@,
        spec.key@ == "unused"@ ==> spec.title@ == "Unused applications"@,
        spec.key@ == "high_risk_perms"@ ==> spec.title@ == "High-risk application permissions"@,
        spec.key@ == "high_risk_delegated"@ ==> spec.title@ == "High-risk delegated permissions"@,
        spec.key@ == "external_exposure"@ ==> spec.title@ == "External exposure"@,
        spec.key@ == "no_local_app"@ ==> spec.title@ == "No local app registration"@,
        spec.key@ == "scoped_mailbox"@ ==> spec.title@ == "Mailbox access scoped"@,
        spec.key@ == "scoped_sites"@ ==> spec.title@ == "SharePoint scoped to selected sites"@,
        spec.key@ == "expired"@ ==> spec.blurb@
            == "Apps holding already-expired secrets or certificates. Removing them can't break a working sign-in — expired credentials can't authenticate."@,
        spec.key@ == "orgwide_mailbox"@ ==> spec.blurb@
            == "Mail permissions that reach every mailbox in the tenant. Confine them to specific mail-enabled groups via Exchange RBAC for Applications."@,
        spec.key@ == "legacy_mailbox_scope"@ ==> spec.blurb@
            == "Mailbox access confined by a deprecated per-app Application Access Policy. Migrate it to RBAC for Applications."@,
        spec.key@ == "orgwide_sharepoint"@ ==> spec.blurb@
            == "Sites.* permissions that reach every site collection. Convert them to the Sites.Selected model on the sites the app actually needs."@,
        spec.key@ == "redundant_perms"@ ==> spec.blurb@
            == "Narrower application permissions a broader held permission already fully covers — pure attack surface, safe to remove."@,
        spec.key@ == "ownership"@ ==> spec.blurb@
            == "Apps with no owner (accountability gap) or a single owner (vulnerable to departure). Adding an owner is purely additive."@,
        spec.key@ == "unused"@ ==> spec.blurb@
            == "No sign-in activity in the report window. Disable sign-in (reversible) to verify nothing breaks, or delete when confirmed obsolete."@,
        spec.key@ == "high_risk_perms"@ ==> spec.blurb@
            == "Broad application permissions (e.g. Mail.ReadWrite, Directory.ReadWrite.All). Reducing them is an admin-judged change — open the app's Permissions tab to review downgrades or scoping."@,
        spec.key@ == "high_risk_delegated"@ ==> spec.blurb@
            == "Admin-consented delegated scopes with broad reach. Review on the principal's Permissions tab; delegated scopes are requested by name, so removal is admin-judged."@,
        spec.key@ == "external_exposure"@ ==> spec.blurb@
            == "Apps that accept sign-ins from outside this directory, with or without a verified publisher. Narrowing the audience or verifying the publisher is an admin-judged change — open the app to review it."@,
        spec.key@ == "no_local_app"@ ==> spec.blurb@
            == "Foreign-tenant enterprise apps, managed identities, and orphaned service principals — scored from their granted roles. Credentials and manifest live in their home tenant; scope fixes still apply here."@,
        spec.key@ == "scoped_mailbox"@ ==> spec.blurb@
            == "Mail permissions confirmed confined to specific mailboxes via Exchange RBAC — the configuration the org-wide fix moves apps toward."@,
        spec.key@ == "scoped_sites"@ ==> spec.blurb@
            == "SharePoint access on the least-privilege Sites.Selected model."@,
{
    lemma_key_shapes();
}

/// The impact of a finding is the sum of the scores of the items that have it, and
/// of no others.
pub proof fn impact_adds_up_item_by_item(
    m: IssueMarkers,
    item: AuditItem,
    a: Seq<AuditItem>,
    b: Seq<AuditItem>,
    key: Seq<char>,
)
    ensures
        impact_of(m, seq![item], key) == if has_finding(m, item, key) {
            item.risk_score as nat
        } else {
            0
        },
        impact_of(m, a + b, key) == impact_of(m, a, key) + impact_of(m, b, key),
    decreases b.len(),
{
    reveal_with_fuel(impact_of, 2);
    assert(seq![item].drop_last() =~= Seq::<AuditItem>::empty());
    if b.len() == 0 {
        assert(a + b =~= a);
    } else {
        impact_adds_up_item_by_item(m, item, a, b.drop_last(), key);
        assert((a + b).drop_last() =~= a + b.drop_last());
        assert((a + b).last() == b.last());
    }
}

/// The levels from worst to best: critical, high, medium, low.
pub proof fn the_levels_are_ranked()
    ensures
        severity(RiskLevel::Critical) > severity(RiskLevel::High),
        severity(RiskLevel::High) > severity(RiskLevel::Medium),
        severity(RiskLevel::Medium) > severity(RiskLevel::Low),
{
}

/// A group holds the items of the run that have its finding, in their order, and is
/// as bad as the worst of them.
pub proof fn a_group_holds_whom_it_affects(
    m: IssueMarkers,
    items: Seq<AuditItem>,
    g: FindingGroup,
    i: usize,
)
    requires
        describes(m, items, g),
        items.len() <= usize::MAX,
        i < items.len(),
    ensures
        g.item_indices@.contains(i) <==> has_finding(m, items[i as int], g.spec.key@),
        g.item_indices@.contains(i) && items[i as int].risk_level is Critical ==> g.worst is Critical,
        g.item_indices@.contains(i) && items[i as int].risk_level is High ==> g.worst is Critical
            || g.worst is High,
        g.item_indices@.contains(i) && items[i as int].risk_level is Medium ==> !(g.worst is Low),
        !(g.worst is Low) ==> exists|j: usize|
            #![trigger g.item_indices@.contains(j)]
            j < items.len() && g.item_indices@.contains(j) && items[j as int].risk_level == g.worst,
{
    let p = |x: AuditItem| has_finding(m, x, g.spec.key@);
    a_selection_is_exact(items, p, g.item_indices@, i, 0, 0);
    worst_is_an_upper_bound(m, items, g.spec.key@);
    if !(g.worst is Low) {
        let j = choose|j: int|
            0 <= j < items.len() && has_finding(m, #[trigger] items[j], g.spec.key@)
                && items[j].risk_level == worst_of(m, items, g.spec.key@);
        assert(p(items[j]));
        assert(g.item_indices@.contains(j as usize));
    }
}

/// The headlines are those of the actionable groups, one by one and in order.
pub proof fn headlines_stand_group_by_group(
    g: FindingGroup,
    a: Seq<FindingGroup>,
    b: Seq<FindingGroup>,
)
    ensures
        headlines(seq![g]) == if g.spec.section is Actionable {
            seq![
                (
                    g.spec.key@,
                    g.spec.title@,
                    if g.worst is Critical {
                        "critical"@
                    } else if g.worst is High {
                        "danger"@
                    } else if g.worst is Medium {
                        "warning"@
                    } else {
                        "ok"@
                    },
                ),
            ]
        } else {
            Seq::<(Seq<char>, Seq<char>, Seq<char>)>::empty()
        },
        headlines(a + b) == headlines(a) + headlines(b),
    decreases b.len(),
{
    reveal_with_fuel(headlines, 2);
    assert(seq![g].drop_last() =~= Seq::<FindingGroup>::empty());
    assert(seq![g].last() == g);
    assert(Seq::<(Seq<char>, Seq<char>, Seq<char>)>::empty().push(
        (g.spec.key@, g.spec.title@, tone_of(g.worst)),
    ) =~= seq![(g.spec.key@, g.spec.title@, tone_of(g.worst))]);
    if b.len() == 0 {
        assert(a + b =~= a);
        assert(headlines(a) + Seq::<(Seq<char>, Seq<char>, Seq<char>)>::empty() =~= headlines(a));
    } else {
        headlines_stand_group_by_group(g, a, b.drop_last());
        assert((a + b).drop_last() =~= a + b.drop_last());
        assert((a + b).last() == b.last());
        assert(headlines(a + b) =~= headlines(a) + headlines(b));
    }
}

/// The catalog has an entry for each of these findings, in this order, and no other.
pub proof fn the_catalog_holds_these_findings(key: Seq<char>)
    ensures
        catalog().len() == 13,
        catalog()[0].key == "expired"@,
        catalog()[1].key == "orgwide_mailbox"@,
        catalog()[2].key == "legacy_mailbox_scope"@,
        catalog()[3].key == "orgwide_sharepoint"@,
        catalog()[4].key == "redundant_perms"@,
        catalog()[5].key == "ownership"@,
        catalog()[6].key == "unused"@,
        catalog()[7].key == "high_risk_perms"@,
        catalog()[8].key == "high_risk_delegated"@,
        catalog()[9].key == "external_exposure"@,
        catalog()[10].key == "no_local_app"@,
        catalog()[11].key == "scoped_mailbox"@,
        catalog()[12].key == "scoped_sites"@,
        (exists|i: int| 0 <= i < catalog().len() && (#[trigger] catalog()[i]).key == key) <==> key
            == "expired"@
            || key == "orgwide_mailbox"@
            || key == "legacy_mailbox_scope"@
            || key == "orgwide_sharepoint"@
            || key == "redundant_perms"@
            || key == "ownership"@
            || key == "unused"@
            || key == "high_risk_perms"@
            || key == "high_risk_delegated"@
            || key == "external_exposure"@
            || key == "no_local_app"@
            || key == "scoped_mailbox"@
            || key == "scoped_sites"@,
{
    assert(catalog()[0].key == "expired"@);
    assert(catalog()[1].key == "orgwide_mailbox"@);
    assert(catalog()[2].key == "legacy_mailbox_scope"@);
    assert(catalog()[3].key == "orgwide_sharepoint"@);
    assert(catalog()[4].key == "redundant_perms"@);
    assert(catalog()[5].key == "ownership"@);
    assert(catalog()[6].key == "unused"@);
    assert(catalog()[7].key == "high_risk_perms"@);
    assert(catalog()[8].key == "high_risk_delegated"@);
    assert(catalog()[9].key == "external_exposure"@);
    assert(catalog()[10].key == "no_local_app"@);
    assert(catalog()[11].key == "scoped_mailbox"@);
    assert(catalog()[12].key == "scoped_sites"@);
}

/// Every group of a ranking holds exactly the items with its finding, in the order of
/// the run, and its impact is the sum of their scores.
pub proof fn every_ranked_group_holds_whom_it_affects(
    m: IssueMarkers,
    items: Seq<AuditItem>,
    groups: Seq<FindingGroup>,
    k: int,
    i: usize,
)
    requires
        is_ranking(m, items, groups),
        0 <= k < groups.len(),
        items.len() <= usize::MAX,
        i < items.len(),
    ensures
        groups.len() == 13,
        listed(groups[k].spec),
        groups[k].item_indices@.contains(i) <==> has_finding(
            m,
            items[i as int],
            groups[k].spec.key@,
        ),
        forall|a: int, b: int|
            0 <= a < b < groups[k].item_indices@.len() ==> groups[k].item_indices@[a]
                < groups[k].item_indices@[b],
        groups[k].impact == impact_of(m, items, groups[k].spec.key@),
{
    assert(describes(m, items, groups[k]));
    a_group_holds_whom_it_affects(m, items, groups[k], i);
}

} // verus!
