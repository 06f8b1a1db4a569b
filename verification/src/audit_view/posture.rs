//! Counts per bucket over one audit run: the one source for every surface that
//! sums the run up.

use crate::audit::{AuditItem, AuditPrincipalKind, CredentialStatus, IssueMarkers, RiskLevel};
use crate::audit_view::filter::{
    any_marked, has_finding, lemma_finding_keys, marker_of, marks, FindingMarker,
};
use crate::audit_view::groups::{describes, FindingGroup};
use crate::rows::{count_rows, rows_are_counted_one_by_one, selection_size, tally, RowTest};
use crate::text::has_prefix;
use vstd::prelude::*;

verus! {

/// How many principals of a run fall into each bucket.
#[derive(Clone, Copy, Debug, PartialEq, Eq, Structural)]
pub struct PostureCounts {
    pub critical: usize,
    pub high: usize,
    pub medium: usize,
    pub low: usize,
    pub expired: usize,
    pub unused: usize,
    pub over_privileged: usize,
    pub high_risk_delegated: usize,
    pub orgwide_mailbox: usize,
    pub scoped_mailbox: usize,
    pub orgwide_sharepoint: usize,
    pub scoped_sites: usize,
    pub unowned: usize,
    pub no_local_app: usize,
}

/// How many items some issue line of which belongs to the finding.
pub open spec fn marked_items(
    m: IssueMarkers,
    items: Seq<AuditItem>,
    finding: FindingMarker,
) -> nat {
    tally(items, |i: AuditItem| any_marked(m, finding, i))
}

/// How many items are in the risk bucket.
pub open spec fn items_at(items: Seq<AuditItem>, level: RiskLevel) -> nat {
    tally(items, |i: AuditItem| i.risk_level == level)
}

/// How many items an issue line of which opens with `prefix`.
pub open spec fn items_prefixed(items: Seq<AuditItem>, prefix: Seq<char>) -> nat {
    tally(
        items,
        |i: AuditItem|
            exists|k: int|
                0 <= k < i.issues@.len() && prefix.is_prefix_of(#[trigger] i.issues@[k]@),
    )
}

struct AtLevel {
    level: RiskLevel,
}

impl RowTest<AuditItem> for AtLevel {
    closed spec fn holds(&self, row: AuditItem) -> bool {
        row.risk_level == self.level
    }

    fn test(&self, row: &AuditItem) -> (r: bool) {
        row.risk_level == self.level
    }
}

struct Prefixed<'a> {
    prefix: &'a str,
}

impl<'a> RowTest<AuditItem> for Prefixed<'a> {
    closed spec fn holds(&self, row: AuditItem) -> bool {
        exists|k: int|
            0 <= k < row.issues@.len() && self.prefix@.is_prefix_of(#[trigger] row.issues@[k]@)
    }

    fn test(&self, row: &AuditItem) -> (r: bool) {
        for k in 0..row.issues.len()
            invariant
                forall|j: int|
                    0 <= j < k ==> !self.prefix@.is_prefix_of(#[trigger] row.issues@[j]@),
        {
            if has_prefix(row.issues[k].as_str(), self.prefix) {
                assert(self.prefix@.is_prefix_of(row.issues@[k as int]@));
                return true;
            }
        }
        false
    }
}

struct Marked<'a> {
    markers: &'a IssueMarkers,
    finding: FindingMarker,
}

impl<'a> RowTest<AuditItem> for Marked<'a> {
    closed spec fn holds(&self, row: AuditItem) -> bool {
        any_marked(*self.markers, self.finding, row)
    }

    fn test(&self, row: &AuditItem) -> (r: bool) {
        self.finding.marks_item(self.markers, row)
    }
}

struct Lapsed;

impl RowTest<AuditItem> for Lapsed {
    closed spec fn holds(&self, row: AuditItem) -> bool {
        row.credential_status is Expired
    }

    fn test(&self, row: &AuditItem) -> (r: bool) {
        matches!(row.credential_status, CredentialStatus::Expired)
    }
}

struct Idle;

impl RowTest<AuditItem> for Idle {
    closed spec fn holds(&self, row: AuditItem) -> bool {
        row.unused
    }

    fn test(&self, row: &AuditItem) -> (r: bool) {
        row.unused
    }
}

struct NotLocal;

impl RowTest<AuditItem> for NotLocal {
    closed spec fn holds(&self, row: AuditItem) -> bool {
        !(row.principal_kind is Application)
    }

    fn test(&self, row: &AuditItem) -> (r: bool) {
        row.principal_kind != AuditPrincipalKind::Application
    }
}

/// How many items are in the risk bucket.
pub fn count_level(items: &[AuditItem], level: RiskLevel) -> (r: usize)
    ensures
        r == items_at(items@, level),
{
    let t = AtLevel { level };
    proof {
        assert((|i: AuditItem| t.holds(i)) =~= (|i: AuditItem| i.risk_level == level));
    }
    count_rows(items, &t)
}

/// How many items an issue line of which opens with `prefix`.
pub fn count_issue_prefix(items: &[AuditItem], prefix: &str) -> (r: usize)
    ensures
        r == items_prefixed(items@, prefix@),
{
    let t = Prefixed { prefix };
    proof {
        assert((|i: AuditItem| t.holds(i)) =~= (|i: AuditItem|
            exists|k: int|
                0 <= k < i.issues@.len() && prefix@.is_prefix_of(#[trigger] i.issues@[k]@)));
    }
    count_rows(items, &t)
}

/// How many items some issue line of which belongs to the finding.
fn count_marked(m: &IssueMarkers, items: &[AuditItem], finding: FindingMarker) -> (r: usize)
    ensures
        r == marked_items(*m, items@, finding),
{
    let t = Marked { markers: m, finding };
    proof {
        assert((|i: AuditItem| t.holds(i)) =~= (|i: AuditItem| any_marked(*m, finding, i)));
    }
    count_rows(items, &t)
}

/// The counts are those of the items.
pub open spec fn counts(m: IssueMarkers, items: Seq<AuditItem>, c: PostureCounts) -> bool {
    &&& c.critical == items_at(items, RiskLevel::Critical)
    &&& c.high == items_at(items, RiskLevel::High)
    &&& c.medium == items_at(items, RiskLevel::Medium)
    &&& c.low == items_at(items, RiskLevel::Low)
    &&& c.expired == tally(items, |i: AuditItem| i.credential_status is Expired)
    &&& c.unused == tally(items, |i: AuditItem| i.unused)
    &&& c.over_privileged == items_prefixed(items, m.high_risk_app_perms@)
    &&& c.high_risk_delegated == items_prefixed(items, m.high_risk_delegated_perms@)
    &&& c.orgwide_mailbox == items_prefixed(items, m.org_wide_mailbox@)
    &&& c.scoped_mailbox == marked_items(m, items, FindingMarker::ScopedMailbox)
    &&& c.orgwide_sharepoint == items_prefixed(items, m.org_wide_sharepoint@)
    &&& c.scoped_sites == items_prefixed(items, m.scoped_sharepoint@)
    &&& c.unowned == marked_items(m, items, FindingMarker::Ownership)
    &&& c.no_local_app == tally(items, |i: AuditItem| !(i.principal_kind is Application))
}

/// The counts of a run, over the whole tenant.
pub fn posture_counts(m: &IssueMarkers, items: &[AuditItem]) -> (r: PostureCounts)
    ensures
        counts(*m, items@, r),
{
    proof {
        assert((|i: AuditItem| Lapsed.holds(i)) =~= (|i: AuditItem|
            i.credential_status is Expired));
        assert((|i: AuditItem| Idle.holds(i)) =~= (|i: AuditItem| i.unused));
        assert((|i: AuditItem| NotLocal.holds(i)) =~= (|i: AuditItem|
            !(i.principal_kind is Application)));
    }
    PostureCounts {
        critical: count_level(items, RiskLevel::Critical),
        high: count_level(items, RiskLevel::High),
        medium: count_level(items, RiskLevel::Medium),
        low: count_level(items, RiskLevel::Low),
        // Lapsed credentials only: those about to lapse have a view of their own.
        expired: count_rows(items, &Lapsed),
        unused: count_rows(items, &Idle),
        over_privileged: count_issue_prefix(items, m.high_risk_app_perms.as_str()),
        high_risk_delegated: count_issue_prefix(items, m.high_risk_delegated_perms.as_str()),
        orgwide_mailbox: count_issue_prefix(items, m.org_wide_mailbox.as_str()),
        // The phrase stands in the middle of its line.
        scoped_mailbox: count_marked(m, items, FindingMarker::ScopedMailbox),
        orgwide_sharepoint: count_issue_prefix(items, m.org_wide_sharepoint.as_str()),
        scoped_sites: count_issue_prefix(items, m.scoped_sharepoint.as_str()),
        unowned: count_marked(m, items, FindingMarker::Ownership),
        no_local_app: count_rows(items, &NotLocal),
    }
}

proof fn lemma_levels_partition(items: Seq<AuditItem>)
    ensures
        items_at(items, RiskLevel::Critical) + items_at(items, RiskLevel::High) + items_at(
            items,
            RiskLevel::Medium,
        ) + items_at(items, RiskLevel::Low) == items.len(),
    decreases items.len(),
{
    if items.len() > 0 {
        lemma_levels_partition(items.drop_last());
    }
}

/// The four severity buckets partition the run: every item is counted in
/// exactly one of them.
pub proof fn severity_buckets_partition_the_run(
    m: IssueMarkers,
    items: Seq<AuditItem>,
    c: PostureCounts,
)
    requires
        counts(m, items, c),
    ensures
        c.critical + c.high + c.medium + c.low == items.len(),
{
    lemma_levels_partition(items);
}

/// How many items have the finding.
pub open spec fn items_with(m: IssueMarkers, items: Seq<AuditItem>, key: Seq<char>) -> nat {
    tally(items, |i: AuditItem| has_finding(m, i, key))
}

/// The counts are those of the findings: a count and the filter that it opens
/// never disagree.
pub proof fn counts_agree_with_findings(m: IssueMarkers, items: Seq<AuditItem>, c: PostureCounts)
    requires
        counts(m, items, c),
    ensures
        c.expired == items_with(m, items, "expired"@),
        c.unused == items_with(m, items, "unused"@),
        c.over_privileged == items_with(m, items, "high_risk_perms"@),
        c.high_risk_delegated == items_with(m, items, "high_risk_delegated"@),
        c.orgwide_mailbox == items_with(m, items, "orgwide_mailbox"@),
        c.scoped_mailbox == items_with(m, items, "scoped_mailbox"@),
        c.orgwide_sharepoint == items_with(m, items, "orgwide_sharepoint"@),
        c.scoped_sites == items_with(m, items, "scoped_sites"@),
        c.unowned == items_with(m, items, "ownership"@),
        c.no_local_app == items_with(m, items, "no_local_app"@),
{
    lemma_finding_keys();
    assert((|i: AuditItem| has_finding(m, i, "expired"@)) =~= (|i: AuditItem|
        i.credential_status is Expired));
    assert((|i: AuditItem| has_finding(m, i, "unused"@)) =~= (|i: AuditItem| i.unused));
    assert((|i: AuditItem| has_finding(m, i, "no_local_app"@)) =~= (|i: AuditItem|
        !(i.principal_kind is Application)));
    assert((|i: AuditItem| has_finding(m, i, "scoped_mailbox"@)) =~= (|i: AuditItem|
        any_marked(m, FindingMarker::ScopedMailbox, i)));
    assert((|i: AuditItem| has_finding(m, i, "ownership"@)) =~= (|i: AuditItem|
        any_marked(m, FindingMarker::Ownership, i)));
    lemma_prefix_is_marker(
        m,
        items,
        "high_risk_perms"@,
        FindingMarker::HighRiskPerms,
        m.high_risk_app_perms@,
    );
    lemma_prefix_is_marker(
        m,
        items,
        "high_risk_delegated"@,
        FindingMarker::HighRiskDelegated,
        m.high_risk_delegated_perms@,
    );
    lemma_prefix_is_marker(
        m,
        items,
        "orgwide_mailbox"@,
        FindingMarker::OrgWideMailbox,
        m.org_wide_mailbox@,
    );
    lemma_prefix_is_marker(
        m,
        items,
        "orgwide_sharepoint"@,
        FindingMarker::OrgWideSharePoint,
        m.org_wide_sharepoint@,
    );
    lemma_prefix_is_marker(
        m,
        items,
        "scoped_sites"@,
        FindingMarker::ScopedSites,
        m.scoped_sharepoint@,
    );
}

proof fn lemma_prefix_is_marker(
    m: IssueMarkers,
    items: Seq<AuditItem>,
    key: Seq<char>,
    finding: FindingMarker,
    prefix: Seq<char>,
)
    requires
        marker_of(key) == Some(finding),
        forall|s: Seq<char>| #[trigger] marks(m, finding, s) == prefix.is_prefix_of(s),
    ensures
        items_with(m, items, key) == items_prefixed(items, prefix),
{
    let p = |i: AuditItem|
        exists|k: int|
            0 <= k < i.issues@.len() && prefix.is_prefix_of(#[trigger] i.issues@[k]@);
    assert forall|i: AuditItem| #[trigger] has_finding(m, i, key) == p(i) by {
        if has_finding(m, i, key) {
            let k = choose|k: int|
                0 <= k < i.issues@.len() && marks(m, finding, #[trigger] i.issues@[k]@);
            assert(prefix.is_prefix_of(i.issues@[k]@));
        }
        if p(i) {
            let k = choose|k: int|
                0 <= k < i.issues@.len() && prefix.is_prefix_of(#[trigger] i.issues@[k]@);
            assert(marks(m, finding, i.issues@[k]@));
        }
    }
    assert((|i: AuditItem| has_finding(m, i, key)) =~= p);
}

/// The panel of a finding lists as many items as the count of that finding says.
pub proof fn panels_are_as_long_as_their_counts(
    m: IssueMarkers,
    items: Seq<AuditItem>,
    g: FindingGroup,
)
    requires
        describes(m, items, g),
        items.len() <= usize::MAX,
    ensures
        g.item_indices@.len() == items_with(m, items, g.spec.key@),
{
    selection_size(items, |i: AuditItem| has_finding(m, i, g.spec.key@), g.item_indices@);
}

/// The severity counts are those of the four risk levels, each of its own.
pub proof fn each_severity_is_counted_by_its_level(
    m: IssueMarkers,
    items: Seq<AuditItem>,
    c: PostureCounts,
)
    requires
        counts(m, items, c),
    ensures
        c.critical == tally(items, |i: AuditItem| i.risk_level is Critical),
        c.high == tally(items, |i: AuditItem| i.risk_level is High),
        c.medium == tally(items, |i: AuditItem| i.risk_level is Medium),
        c.low == tally(items, |i: AuditItem| i.risk_level is Low),
{
    assert((|i: AuditItem| i.risk_level is Critical) =~= (|i: AuditItem|
        i.risk_level == RiskLevel::Critical));
    assert((|i: AuditItem| i.risk_level is High) =~= (|i: AuditItem|
        i.risk_level == RiskLevel::High));
    assert((|i: AuditItem| i.risk_level is Medium) =~= (|i: AuditItem|
        i.risk_level == RiskLevel::Medium));
    assert((|i: AuditItem| i.risk_level is Low) =~= (|i: AuditItem|
        i.risk_level == RiskLevel::Low));
}

/// How many items have a finding is counted over the evidence of that finding, item
/// by item: the counts of two runs add up to those of both.
pub proof fn counts_of_two_runs_add_up(
    m: IssueMarkers,
    a: Seq<AuditItem>,
    b: Seq<AuditItem>,
    ca: PostureCounts,
    cb: PostureCounts,
    c: PostureCounts,
)
    requires
        counts(m, a, ca),
        counts(m, b, cb),
        counts(m, a + b, c),
    ensures
        c.critical == ca.critical + cb.critical,
        c.high == ca.high + cb.high,
        c.medium == ca.medium + cb.medium,
        c.low == ca.low + cb.low,
        c.expired == ca.expired + cb.expired,
        c.unused == ca.unused + cb.unused,
        c.over_privileged == ca.over_privileged + cb.over_privileged,
        c.high_risk_delegated == ca.high_risk_delegated + cb.high_risk_delegated,
        c.orgwide_mailbox == ca.orgwide_mailbox + cb.orgwide_mailbox,
        c.scoped_mailbox == ca.scoped_mailbox + cb.scoped_mailbox,
        c.orgwide_sharepoint == ca.orgwide_sharepoint + cb.orgwide_sharepoint,
        c.scoped_sites == ca.scoped_sites + cb.scoped_sites,
        c.unowned == ca.unowned + cb.unowned,
        c.no_local_app == ca.no_local_app + cb.no_local_app,
{
    assert forall|p: spec_fn(AuditItem) -> bool| #[trigger]
        tally(a + b, p) == tally(a, p) + tally(b, p) by {
        if a.len() > 0 {
            rows_are_counted_one_by_one(a[0], a, b, p);
        } else {
            assert(a + b =~= b);
        }
    }
}

} // verus!
