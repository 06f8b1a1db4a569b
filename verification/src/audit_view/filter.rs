//! The audit table's filter.
//!
//! Two independent dimensions, risk severity and finding, intersected with a
//! search over name and application id.

use crate::audit::{AuditItem, AuditPrincipalKind, CredentialStatus, IssueMarkers, RiskLevel};
use crate::rows::{positions, selects, RowTest};
use crate::text::{
    contains_ignore_case, has_prefix, has_substring, lowercase_of, occurs_in, same,
    what_occurs_stands_between,
};
use vstd::prelude::*;

verus! {

/// The findings that are recognised by an issue line.
#[derive(Clone, Copy, Debug, PartialEq, Eq, Structural)]
pub enum FindingMarker {
    HighRiskPerms,
    HighRiskDelegated,
    ExternalExposure,
    OrgWideMailbox,
    ScopedMailbox,
    LegacyMailboxScope,
    OrgWideSharePoint,
    RedundantPerms,
    ScopedSites,
    Ownership,
}

/// The finding that a key names, if it is one that issue lines carry.
pub open spec fn marker_of(finding: Seq<char>) -> Option<FindingMarker> {
    if finding == "high_risk_perms"@ {
        Some(FindingMarker::HighRiskPerms)
    } else if finding == "high_risk_delegated"@ {
        Some(FindingMarker::HighRiskDelegated)
    } else if finding == "external_exposure"@ {
        Some(FindingMarker::ExternalExposure)
    } else if finding == "orgwide_mailbox"@ {
        Some(FindingMarker::OrgWideMailbox)
    } else if finding == "scoped_mailbox"@ {
        Some(FindingMarker::ScopedMailbox)
    } else if finding == "legacy_mailbox_scope"@ {
        Some(FindingMarker::LegacyMailboxScope)
    } else if finding == "orgwide_sharepoint"@ {
        Some(FindingMarker::OrgWideSharePoint)
    } else if finding == "redundant_perms"@ {
        Some(FindingMarker::RedundantPerms)
    } else if finding == "scoped_sites"@ {
        Some(FindingMarker::ScopedSites)
    } else if finding == "ownership"@ {
        Some(FindingMarker::Ownership)
    } else {
        None
    }
}

/// The issue line belongs to the finding.
pub open spec fn marks(m: IssueMarkers, finding: FindingMarker, issue: Seq<char>) -> bool {
    match finding {
        FindingMarker::HighRiskPerms => m.high_risk_app_perms@.is_prefix_of(issue),
        FindingMarker::HighRiskDelegated => m.high_risk_delegated_perms@.is_prefix_of(issue),
        FindingMarker::ExternalExposure => m.multitenant_audience@.is_prefix_of(issue)
            || m.unverified_publisher@.is_prefix_of(issue),
        FindingMarker::OrgWideMailbox => m.org_wide_mailbox@.is_prefix_of(issue),
        FindingMarker::ScopedMailbox => occurs_in(m.scoped_via_rbac@, issue),
        FindingMarker::LegacyMailboxScope => m.legacy_mailbox_policy@.is_prefix_of(issue),
        FindingMarker::OrgWideSharePoint => m.org_wide_sharepoint@.is_prefix_of(issue),
        FindingMarker::RedundantPerms => m.redundant_app_perms@.is_prefix_of(issue),
        FindingMarker::ScopedSites => m.scoped_sharepoint@.is_prefix_of(issue),
        FindingMarker::Ownership => m.no_owners@.is_prefix_of(issue)
            || m.single_owner@.is_prefix_of(issue),
    }
}

/// Some issue line of the item belongs to the finding.
pub open spec fn any_marked(m: IssueMarkers, finding: FindingMarker, item: AuditItem) -> bool {
    exists|k: int|
        0 <= k < item.issues@.len() && marks(m, finding, #[trigger] item.issues@[k]@)
}

/// The item has the finding. `"all"`, and any key that names no finding, does
/// not constrain.
pub open spec fn has_finding(m: IssueMarkers, item: AuditItem, finding: Seq<char>) -> bool {
    match marker_of(finding) {
        Some(mark) => any_marked(m, mark, item),
        None => if finding == "expired"@ {
            item.credential_status is Expired
        } else if finding == "unused"@ {
            item.unused
        } else if finding == "no_local_app"@ {
            !(item.principal_kind is Application)
        } else {
            true
        },
    }
}

/// The item is in the risk bucket. `"all"`, and any key that names no bucket,
/// does not constrain.
pub open spec fn in_severity(item: AuditItem, severity: Seq<char>) -> bool {
    if severity == "critical"@ {
        item.risk_level is Critical
    } else if severity == "high"@ {
        item.risk_level is High
    } else if severity == "medium"@ {
        item.risk_level is Medium
    } else if severity == "low"@ {
        item.risk_level is Low
    } else {
        true
    }
}

/// The search text, already in lower case, occurs in the lower-case name or
/// application id; an empty search matches everything.
pub open spec fn in_query(name_lower: Seq<char>, id_lower: Seq<char>, query: Seq<char>) -> bool {
    query.len() == 0 || occurs_in(query, name_lower) || occurs_in(query, id_lower)
}

/// The item passes all three dimensions of the filter.
pub open spec fn in_view(
    m: IssueMarkers,
    item: AuditItem,
    severity: Seq<char>,
    finding: Seq<char>,
    query: Seq<char>,
) -> bool {
    &&& in_severity(item, severity)
    &&& has_finding(m, item, finding)
    &&& in_query(lowercase_of(item.application_name@), lowercase_of(item.app_id@), query)
}

/// The finding that a key names, if it is one that issue lines carry: nothing
/// for `"all"`, for an unknown key, and for the findings that read a field.
pub fn issue_marker(finding: &str) -> (r: Option<FindingMarker>)
    ensures
        r == marker_of(finding@),
{
    if same(finding, "high_risk_perms") {
        Some(FindingMarker::HighRiskPerms)
    } else if same(finding, "high_risk_delegated") {
        Some(FindingMarker::HighRiskDelegated)
    } else if same(finding, "external_exposure") {
        Some(FindingMarker::ExternalExposure)
    } else if same(finding, "orgwide_mailbox") {
        Some(FindingMarker::OrgWideMailbox)
    } else if same(finding, "scoped_mailbox") {
        Some(FindingMarker::ScopedMailbox)
    } else if same(finding, "legacy_mailbox_scope") {
        Some(FindingMarker::LegacyMailboxScope)
    } else if same(finding, "orgwide_sharepoint") {
        Some(FindingMarker::OrgWideSharePoint)
    } else if same(finding, "redundant_perms") {
        Some(FindingMarker::RedundantPerms)
    } else if same(finding, "scoped_sites") {
        Some(FindingMarker::ScopedSites)
    } else if same(finding, "ownership") {
        Some(FindingMarker::Ownership)
    } else {
        None
    }
}

impl FindingMarker {
    /// Whether an issue line belongs to this finding.
    pub fn matches(self, m: &IssueMarkers, issue: &str) -> (r: bool)
        ensures
            r == marks(*m, self, issue@),
    {
        match self {
            FindingMarker::HighRiskPerms => has_prefix(issue, m.high_risk_app_perms.as_str()),
            FindingMarker::HighRiskDelegated => has_prefix(
                issue,
                m.high_risk_delegated_perms.as_str(),
            ),
            // Reach beyond this directory: the publisher line rides along with
            // the audience line, in one finding.
            FindingMarker::ExternalExposure => has_prefix(issue, m.multitenant_audience.as_str())
                || has_prefix(issue, m.unverified_publisher.as_str()),
            FindingMarker::OrgWideMailbox => has_prefix(issue, m.org_wide_mailbox.as_str()),
            // The one phrase that stands in the middle of its line.
            FindingMarker::ScopedMailbox => has_substring(issue, m.scoped_via_rbac.as_str()),
            FindingMarker::LegacyMailboxScope => has_prefix(
                issue,
                m.legacy_mailbox_policy.as_str(),
            ),
            FindingMarker::OrgWideSharePoint => has_prefix(issue, m.org_wide_sharepoint.as_str()),
            FindingMarker::RedundantPerms => has_prefix(issue, m.redundant_app_perms.as_str()),
            FindingMarker::ScopedSites => has_prefix(issue, m.scoped_sharepoint.as_str()),
            FindingMarker::Ownership => has_prefix(issue, m.no_owners.as_str()) || has_prefix(
                issue,
                m.single_owner.as_str(),
            ),
        }
    }

    /// Whether some issue line of the item belongs to this finding.
    pub fn marks_item(self, m: &IssueMarkers, item: &AuditItem) -> (r: bool)
        ensures
            r == any_marked(*m, self, *item),
    {
        for k in 0..item.issues.len()
            invariant
                forall|j: int|
                    0 <= j < k ==> !marks(*m, self, #[trigger] item.issues@[j]@),
        {
            if self.matches(m, item.issues[k].as_str()) {
                assert(marks(*m, self, item.issues@[k as int]@));
                return true;
            }
        }
        false
    }
}

/// Whether the item is in the risk bucket that `severity` names.
pub fn matches_severity(item: &AuditItem, severity: &str) -> (r: bool)
    ensures
        r == in_severity(*item, severity@),
{
    if same(severity, "critical") {
        matches!(item.risk_level, RiskLevel::Critical)
    } else if same(severity, "high") {
        matches!(item.risk_level, RiskLevel::High)
    } else if same(severity, "medium") {
        matches!(item.risk_level, RiskLevel::Medium)
    } else if same(severity, "low") {
        matches!(item.risk_level, RiskLevel::Low)
    } else {
        true
    }
}

/// Whether the item has the finding that `finding` names.
pub fn matches_finding(m: &IssueMarkers, item: &AuditItem, finding: &str) -> (r: bool)
    ensures
        r == has_finding(*m, *item, finding@),
{
    match issue_marker(finding) {
        Some(mark) => mark.marks_item(m, item),
        None => {
            if same(finding, "expired") {
                matches!(item.credential_status, CredentialStatus::Expired)
            } else if same(finding, "unused") {
                item.unused
            } else if same(finding, "no_local_app") {
                matches!(
                    item.principal_kind,
                    AuditPrincipalKind::ServicePrincipal | AuditPrincipalKind::ManagedIdentity
                )
            } else {
                true
            }
        },
    }
}

/// One setting of the filter.
pub struct AuditFilter<'a> {
    pub markers: &'a IssueMarkers,
    pub severity: &'a str,
    pub finding: &'a str,
    pub query_lower: &'a str,
}

impl<'a> RowTest<AuditItem> for AuditFilter<'a> {
    open spec fn holds(&self, row: AuditItem) -> bool {
        in_view(*self.markers, row, self.severity@, self.finding@, self.query_lower@)
    }

    fn test(&self, row: &AuditItem) -> (r: bool) {
        matches_severity(row, self.severity) && matches_finding(self.markers, row, self.finding)
            && (self.query_lower.is_empty() || contains_ignore_case(
            row.application_name.as_str(),
            self.query_lower,
        ) || contains_ignore_case(row.app_id.as_str(), self.query_lower))
    }
}

/// The positions of the items that pass the severity and the finding and the
/// search, in their original order. `query_lower` is in lower case already.
pub fn filter_indices(
    m: &IssueMarkers,
    items: &[AuditItem],
    severity: &str,
    finding: &str,
    query_lower: &str,
) -> (r: Vec<usize>)
    ensures
        selects(
            items@,
            |i: AuditItem| in_view(*m, i, severity@, finding@, query_lower@),
            r@,
        ),
{
    let f = AuditFilter { markers: m, severity, finding, query_lower };
    let r = positions(items, &f);
    proof {
        assert((|i: AuditItem| f.holds(i)) =~= (|i: AuditItem|
            in_view(*m, i, severity@, finding@, query_lower@)));
    }
    r
}

/// The lines of the item that belong to the finding, in order.
pub open spec fn quoted_lines(m: IssueMarkers, issues: Seq<String>, key: Seq<char>) -> Seq<
    Seq<char>,
>
    decreases issues.len(),
{
    match marker_of(key) {
        None => Seq::empty(),
        Some(mark) => if issues.len() == 0 {
            Seq::empty()
        } else {
            let before = quoted_lines(m, issues.drop_last(), key);
            if marks(m, mark, issues.last()@) {
                before.push(issues.last()@)
            } else {
                before
            }
        },
    }
}

/// The issue lines that put `item` under the finding `key`; none for `"all"`,
/// for an unknown key, and for the findings that read a field.
pub fn issue_lines_for<'a>(m: &IssueMarkers, item: &'a AuditItem, key: &str) -> (r: Vec<&'a str>)
    ensures
        r@.map_values(|s: &str| s@) == quoted_lines(*m, item.issues@, key@),
{
    let mut out: Vec<&'a str> = Vec::new();
    match issue_marker(key) {
        None => {
            proof {
                assert(out@.map_values(|s: &str| s@) =~= Seq::empty());
            }
            out
        },
        Some(mark) => {
            proof {
                assert(out@.map_values(|s: &str| s@) =~= Seq::empty());
            }
            for k in 0..item.issues.len()
                invariant
                    marker_of(key@) == Some(mark),
                    out@.map_values(|s: &str| s@) == quoted_lines(
                        *m,
                        item.issues@.take(k as int),
                        key@,
                    ),
            {
                let line = item.issues[k].as_str();
                proof {
                    assert(item.issues@.take(k as int + 1).drop_last() =~= item.issues@.take(
                        k as int,
                    ));
                }
                let ghost before = out@;
                if mark.matches(m, line) {
                    out.push(line);
                    proof {
                        assert(out@.map_values(|s: &str| s@) =~= before.map_values(
                            |s: &str| s@,
                        ).push(line@));
                    }
                }
            }
            proof {
                assert(item.issues@.take(item.issues@.len() as int) =~= item.issues@);
            }
            out
        },
    }
}

/// Each finding key names its own finding, and the keys that name none of the
/// marked findings are told apart.
pub proof fn lemma_finding_keys()
    ensures
        marker_of("high_risk_perms"@) == Some(FindingMarker::HighRiskPerms),
        marker_of("high_risk_delegated"@) == Some(FindingMarker::HighRiskDelegated),
        marker_of("external_exposure"@) == Some(FindingMarker::ExternalExposure),
        marker_of("orgwide_mailbox"@) == Some(FindingMarker::OrgWideMailbox),
        marker_of("scoped_mailbox"@) == Some(FindingMarker::ScopedMailbox),
        marker_of("legacy_mailbox_scope"@) == Some(FindingMarker::LegacyMailboxScope),
        marker_of("orgwide_sharepoint"@) == Some(FindingMarker::OrgWideSharePoint),
        marker_of("redundant_perms"@) == Some(FindingMarker::RedundantPerms),
        marker_of("scoped_sites"@) == Some(FindingMarker::ScopedSites),
        marker_of("ownership"@) == Some(FindingMarker::Ownership),
        marker_of("expired"@) is None,
        marker_of("unused"@) is None,
        marker_of("no_local_app"@) is None,
        marker_of("all"@) is None,
        "unused"@ != "expired"@,
        "no_local_app"@ != "expired"@,
        "no_local_app"@ != "unused"@,
        "all"@ != "expired"@,
        "all"@ != "unused"@,
        "all"@ != "no_local_app"@,
{
    reveal_strlit("high_risk_perms");
    assert("high_risk_perms"@.len() == 15);
    reveal_strlit("high_risk_delegated");
    assert("high_risk_delegated"@.len() == 19);
    reveal_strlit("external_exposure");
    assert("external_exposure"@.len() == 17);
    reveal_strlit("orgwide_mailbox");
    assert("orgwide_mailbox"@.len() == 15);
    reveal_strlit("scoped_mailbox");
    assert("scoped_mailbox"@.len() == 14);
    reveal_strlit("legacy_mailbox_scope");
    assert("legacy_mailbox_scope"@.len() == 20);
    reveal_strlit("orgwide_sharepoint");
    assert("orgwide_sharepoint"@.len() == 18);
    reveal_strlit("redundant_perms");
    assert("redundant_perms"@.len() == 15);
    reveal_strlit("scoped_sites");
    assert("scoped_sites"@.len() == 12);
    reveal_strlit("ownership");
    assert("ownership"@.len() == 9);
    reveal_strlit("expired");
    assert("expired"@.len() == 7);
    reveal_strlit("unused");
    assert("unused"@.len() == 6);
    reveal_strlit("no_local_app");
    assert("no_local_app"@.len() == 12);
    reveal_strlit("all");
    assert("all"@.len() == 3);
    assert("orgwide_mailbox"@[0] == 'o');
    assert("redundant_perms"@[0] == 'r');
    assert("high_risk_perms"@[0] == 'h');
    assert("scoped_sites"@[0] == 's');
    assert("no_local_app"@[0] == 'n');
}

/// The two dimensions share no key: a severity does not constrain the finding,
/// and a finding does not constrain the severity.
pub proof fn the_dimensions_share_no_key(m: IssueMarkers, item: AuditItem)
    ensures
        has_finding(m, item, "critical"@),
        has_finding(m, item, "high"@),
        has_finding(m, item, "medium"@),
        has_finding(m, item, "low"@),
        in_severity(item, "high_risk_perms"@),
        in_severity(item, "high_risk_delegated"@),
        in_severity(item, "external_exposure"@),
        in_severity(item, "orgwide_mailbox"@),
        in_severity(item, "scoped_mailbox"@),
        in_severity(item, "legacy_mailbox_scope"@),
        in_severity(item, "orgwide_sharepoint"@),
        in_severity(item, "redundant_perms"@),
        in_severity(item, "scoped_sites"@),
        in_severity(item, "ownership"@),
        in_severity(item, "expired"@),
        in_severity(item, "unused"@),
        in_severity(item, "no_local_app"@),
{
    lemma_finding_keys();
    reveal_strlit("high_risk_perms");
    assert("high_risk_perms"@.len() == 15);
    reveal_strlit("high_risk_delegated");
    assert("high_risk_delegated"@.len() == 19);
    reveal_strlit("external_exposure");
    assert("external_exposure"@.len() == 17);
    reveal_strlit("orgwide_mailbox");
    assert("orgwide_mailbox"@.len() == 15);
    reveal_strlit("scoped_mailbox");
    assert("scoped_mailbox"@.len() == 14);
    reveal_strlit("legacy_mailbox_scope");
    assert("legacy_mailbox_scope"@.len() == 20);
    reveal_strlit("orgwide_sharepoint");
    assert("orgwide_sharepoint"@.len() == 18);
    reveal_strlit("redundant_perms");
    assert("redundant_perms"@.len() == 15);
    reveal_strlit("scoped_sites");
    assert("scoped_sites"@.len() == 12);
    reveal_strlit("ownership");
    assert("ownership"@.len() == 9);
    reveal_strlit("expired");
    assert("expired"@.len() == 7);
    reveal_strlit("unused");
    assert("unused"@.len() == 6);
    reveal_strlit("no_local_app");
    assert("no_local_app"@.len() == 12);
    reveal_strlit("critical");
    assert("critical"@.len() == 8);
    reveal_strlit("high");
    assert("high"@.len() == 4);
    reveal_strlit("medium");
    assert("medium"@.len() == 6);
    reveal_strlit("low");
    assert("low"@.len() == 3);
    assert("medium"@[0] == 'm');
    assert("unused"@[0] == 'u');
}

/// The lines that a row quotes under a finding are there exactly when the item
/// has that finding.
pub proof fn quoted_lines_agree_with_membership(m: IssueMarkers, item: AuditItem, key: Seq<char>)
    requires
        marker_of(key) is Some,
    ensures
        quoted_lines(m, item.issues@, key).len() > 0 <==> has_finding(m, item, key),
{
    lemma_quotes(m, item.issues@, key, marker_of(key)->0);
    let mark = marker_of(key)->0;
    if quoted_lines(m, item.issues@, key).len() > 0 {
        let k = choose|k: int|
            0 <= k < item.issues@.len() && marks(m, mark, #[trigger] item.issues@[k]@);
        assert(marks(m, mark, item.issues@[k]@));
    }
}

proof fn lemma_quotes(
    m: IssueMarkers,
    issues: Seq<String>,
    key: Seq<char>,
    mark: FindingMarker,
)
    requires
        marker_of(key) == Some(mark),
    ensures
        quoted_lines(m, issues, key).len() > 0 <==> exists|k: int|
            0 <= k < issues.len() && marks(m, mark, #[trigger] issues[k]@),
    decreases issues.len(),
{
    if issues.len() > 0 {
        let init = issues.drop_last();
        lemma_quotes(m, init, key, mark);
        if exists|k: int| 0 <= k < init.len() && marks(m, mark, #[trigger] init[k]@) {
            let k = choose|k: int| 0 <= k < init.len() && marks(m, mark, #[trigger] init[k]@);
            assert(marks(m, mark, issues[k]@));
        }
        if exists|k: int| 0 <= k < issues.len() && marks(m, mark, #[trigger] issues[k]@) {
            let k = choose|k: int| 0 <= k < issues.len() && marks(m, mark, #[trigger] issues[k]@);
            if k < init.len() {
                assert(marks(m, mark, init[k]@));
            }
        }
        if marks(m, mark, issues.last()@) {
            assert(marks(m, mark, issues[issues.len() - 1]@));
        }
    }
}

/// Every line that a row quotes under a finding is one of the item's lines, and
/// belongs to that finding.
pub proof fn quoted_lines_are_the_items_own(
    m: IssueMarkers,
    issues: Seq<String>,
    key: Seq<char>,
    line: Seq<char>,
)
    requires
        quoted_lines(m, issues, key).contains(line),
    ensures
        marker_of(key) is Some,
        exists|k: int|
            0 <= k < issues.len() && (#[trigger] issues[k])@ == line && marks(
                m,
                marker_of(key)->0,
                line,
            ),
    decreases issues.len(),
{
    if issues.len() > 0 && marker_of(key) is Some {
        let init = issues.drop_last();
        let before = quoted_lines(m, init, key);
        let w = choose|w: int|
            0 <= w < quoted_lines(m, issues, key).len() && quoted_lines(m, issues, key)[w] == line;
        if w < before.len() {
            assert(before[w] == line);
            quoted_lines_are_the_items_own(m, init, key, line);
            let k = choose|k: int|
                0 <= k < init.len() && (#[trigger] init[k])@ == line && marks(
                    m,
                    marker_of(key)->0,
                    line,
                );
            assert(issues[k]@ == line);
        } else {
            assert(issues[issues.len() - 1]@ == line);
        }
    }
}

/// The phrases that open an issue line, each with its finding.
pub open spec fn openings(m: IssueMarkers) -> Seq<(FindingMarker, Seq<char>)> {
    seq![
        (FindingMarker::HighRiskPerms, m.high_risk_app_perms@),
        (FindingMarker::HighRiskDelegated, m.high_risk_delegated_perms@),
        (FindingMarker::ExternalExposure, m.multitenant_audience@),
        (FindingMarker::ExternalExposure, m.unverified_publisher@),
        (FindingMarker::OrgWideMailbox, m.org_wide_mailbox@),
        (FindingMarker::LegacyMailboxScope, m.legacy_mailbox_policy@),
        (FindingMarker::OrgWideSharePoint, m.org_wide_sharepoint@),
        (FindingMarker::RedundantPerms, m.redundant_app_perms@),
        (FindingMarker::ScopedSites, m.scoped_sharepoint@),
        (FindingMarker::Ownership, m.no_owners@),
        (FindingMarker::Ownership, m.single_owner@),
    ]
}

/// No opening phrase of a finding begins with that of another finding.
pub open spec fn apart(m: IssueMarkers) -> bool {
    forall|i: int, j: int| #![trigger openings(m)[i], openings(m)[j]]
        0 <= i < openings(m).len() && 0 <= j < openings(m).len() && openings(m)[i].0 != openings(
            m,
        )[j].0 ==> !openings(m)[i].1.is_prefix_of(openings(m)[j].1)
}

proof fn lemma_opening(m: IssueMarkers, f: FindingMarker, issue: Seq<char>) -> (i: int)
    requires
        marks(m, f, issue),
        f != FindingMarker::ScopedMailbox,
    ensures
        0 <= i < openings(m).len(),
        openings(m)[i].0 == f,
        openings(m)[i].1.is_prefix_of(issue),
{
    match f {
        FindingMarker::HighRiskPerms => 0,
        FindingMarker::HighRiskDelegated => 1,
        FindingMarker::ExternalExposure => if m.multitenant_audience@.is_prefix_of(issue) {
            2
        } else {
            3
        },
        FindingMarker::OrgWideMailbox => 4,
        FindingMarker::LegacyMailboxScope => 5,
        FindingMarker::OrgWideSharePoint => 6,
        FindingMarker::RedundantPerms => 7,
        FindingMarker::ScopedSites => 8,
        FindingMarker::Ownership => if m.no_owners@.is_prefix_of(issue) {
            9
        } else {
            10
        },
        FindingMarker::ScopedMailbox => 0,
    }
}

/// A line that opens with the phrase of one finding belongs to no other finding
/// that an opening phrase marks.
pub proof fn a_line_belongs_to_one_finding(
    m: IssueMarkers,
    a: FindingMarker,
    b: FindingMarker,
    issue: Seq<char>,
)
    requires
        apart(m),
        marks(m, a, issue),
        marks(m, b, issue),
        a != FindingMarker::ScopedMailbox,
        b != FindingMarker::ScopedMailbox,
    ensures
        a == b,
{
    let i = lemma_opening(m, a, issue);
    let j = lemma_opening(m, b, issue);
    let p = openings(m)[i].1;
    let q = openings(m)[j].1;
    if a != b {
        if p.len() <= q.len() {
            assert(p =~= q.subrange(0, p.len() as int));
        } else {
            assert(q =~= p.subrange(0, q.len() as int));
        }
    }
}

/// The filter is the intersection of its three dimensions, each of which lets
/// everything pass when it is not set.
pub proof fn filter_is_an_intersection(
    m: IssueMarkers,
    item: AuditItem,
    severity: Seq<char>,
    finding: Seq<char>,
    query: Seq<char>,
)
    ensures
        in_view(m, item, severity, finding, query) <==> in_view(
            m,
            item,
            severity,
            "all"@,
            Seq::empty(),
        ) && in_view(m, item, "all"@, finding, Seq::empty()) && in_view(
            m,
            item,
            "all"@,
            "all"@,
            query,
        ),
        in_view(m, item, "all"@, "all"@, Seq::empty()),
{
    lemma_finding_keys();
    reveal_strlit("all");
    assert("all"@.len() == 3);
    reveal_strlit("critical");
    reveal_strlit("high");
    reveal_strlit("medium");
    reveal_strlit("low");
    assert("all"@[0] == 'a');
    assert("low"@[0] == 'l');
}

/// The keys are told apart by their lengths, and where two are of one length by
/// their first characters.
pub(crate) proof fn lemma_key_shapes()
    ensures
        "high_risk_perms"@.len() == 15,
        "high_risk_delegated"@.len() == 19,
        "external_exposure"@.len() == 17,
        "orgwide_mailbox"@.len() == 15,
        "scoped_mailbox"@.len() == 14,
        "legacy_mailbox_scope"@.len() == 20,
        "orgwide_sharepoint"@.len() == 18,
        "redundant_perms"@.len() == 15,
        "scoped_sites"@.len() == 12,
        "ownership"@.len() == 9,
        "expired"@.len() == 7,
        "unused"@.len() == 6,
        "no_local_app"@.len() == 12,
        "critical"@.len() == 8,
        "high"@.len() == 4,
        "medium"@.len() == 6,
        "low"@.len() == 3,
        "all"@.len() == 3,
        "expiring"@.len() == 8,
        "high_risk_perms"@[0] == 'h',
        "orgwide_mailbox"@[0] == 'o',
        "redundant_perms"@[0] == 'r',
        "scoped_sites"@[0] == 's',
        "no_local_app"@[0] == 'n',
        "critical"@[0] == 'c',
        "expiring"@[0] == 'e',
        "medium"@[0] == 'm',
        "unused"@[0] == 'u',
        "low"@[0] == 'l',
        "all"@[0] == 'a',
{
    reveal_strlit("high_risk_perms");
    assert("high_risk_perms"@.len() == 15);
    reveal_strlit("high_risk_delegated");
    assert("high_risk_delegated"@.len() == 19);
    reveal_strlit("external_exposure");
    assert("external_exposure"@.len() == 17);
    reveal_strlit("orgwide_mailbox");
    assert("orgwide_mailbox"@.len() == 15);
    reveal_strlit("scoped_mailbox");
    assert("scoped_mailbox"@.len() == 14);
    reveal_strlit("legacy_mailbox_scope");
    assert("legacy_mailbox_scope"@.len() == 20);
    reveal_strlit("orgwide_sharepoint");
    assert("orgwide_sharepoint"@.len() == 18);
    reveal_strlit("redundant_perms");
    assert("redundant_perms"@.len() == 15);
    reveal_strlit("scoped_sites");
    assert("scoped_sites"@.len() == 12);
    reveal_strlit("ownership");
    assert("ownership"@.len() == 9);
    reveal_strlit("expired");
    assert("expired"@.len() == 7);
    reveal_strlit("unused");
    assert("unused"@.len() == 6);
    reveal_strlit("no_local_app");
    assert("no_local_app"@.len() == 12);
    reveal_strlit("critical");
    assert("critical"@.len() == 8);
    reveal_strlit("high");
    assert("high"@.len() == 4);
    reveal_strlit("medium");
    assert("medium"@.len() == 6);
    reveal_strlit("low");
    assert("low"@.len() == 3);
    reveal_strlit("all");
    assert("all"@.len() == 3);
    reveal_strlit("expiring");
    assert("expiring"@.len() == 8);
}

/// What each finding is read from: nine of them from an issue line that opens with
/// their own phrase, or with one of their two; the confined mailbox from a line that
/// holds its phrase anywhere; and three from a field. Any other key lets every item
/// pass.
pub proof fn each_finding_has_its_own_evidence(m: IssueMarkers, item: AuditItem, key: Seq<char>)
    ensures
        has_finding(m, item, "high_risk_perms"@) <==> exists|k: int|
            0 <= k < item.issues@.len()
                && m.high_risk_app_perms@.is_prefix_of(#[trigger] item.issues@[k]@),
        has_finding(m, item, "high_risk_delegated"@) <==> exists|k: int|
            0 <= k < item.issues@.len()
                && m.high_risk_delegated_perms@.is_prefix_of(#[trigger] item.issues@[k]@),
        has_finding(m, item, "external_exposure"@) <==> exists|k: int|
            0 <= k < item.issues@.len()
                && (m.multitenant_audience@.is_prefix_of(#[trigger] item.issues@[k]@)
                || m.unverified_publisher@.is_prefix_of(item.issues@[k]@)),
        has_finding(m, item, "orgwide_mailbox"@) <==> exists|k: int|
            0 <= k < item.issues@.len()
                && m.org_wide_mailbox@.is_prefix_of(#[trigger] item.issues@[k]@),
        has_finding(m, item, "legacy_mailbox_scope"@) <==> exists|k: int|
            0 <= k < item.issues@.len()
                && m.legacy_mailbox_policy@.is_prefix_of(#[trigger] item.issues@[k]@),
        has_finding(m, item, "orgwide_sharepoint"@) <==> exists|k: int|
            0 <= k < item.issues@.len()
                && m.org_wide_sharepoint@.is_prefix_of(#[trigger] item.issues@[k]@),
        has_finding(m, item, "redundant_perms"@) <==> exists|k: int|
            0 <= k < item.issues@.len()
                && m.redundant_app_perms@.is_prefix_of(#[trigger] item.issues@[k]@),
        has_finding(m, item, "scoped_sites"@) <==> exists|k: int|
            0 <= k < item.issues@.len()
                && m.scoped_sharepoint@.is_prefix_of(#[trigger] item.issues@[k]@),
        has_finding(m, item, "ownership"@) <==> exists|k: int|
            0 <= k < item.issues@.len() && (m.no_owners@.is_prefix_of(#[trigger] item.issues@[k]@)
                || m.single_owner@.is_prefix_of(item.issues@[k]@)),
        has_finding(m, item, "scoped_mailbox"@) <==> exists|k: int|
            0 <= k < item.issues@.len() && occurs_in(
                m.scoped_via_rbac@,
                #[trigger] item.issues@[k]@,
            ),
        has_finding(m, item, "expired"@) <==> item.credential_status is Expired,
        has_finding(m, item, "unused"@) <==> item.unused,
        has_finding(m, item, "no_local_app"@) <==> item.principal_kind is ServicePrincipal
            || item.principal_kind is ManagedIdentity,
        key != "high_risk_perms"@ && key != "high_risk_delegated"@ && key != "external_exposure"@
            && key != "orgwide_mailbox"@ && key != "legacy_mailbox_scope"@ && key
            != "orgwide_sharepoint"@ && key != "redundant_perms"@ && key != "scoped_sites"@ && key
            != "ownership"@ && key != "scoped_mailbox"@ && key != "expired"@ && key != "unused"@
            && key != "no_local_app"@ ==> has_finding(
            m,
            item,
            key,
        ),
{
    lemma_key_shapes();
    lemma_finding_keys();
}

/// Each severity keeps the items of its own risk level, and every other key keeps
/// them all.
pub proof fn each_severity_keeps_its_own_level(item: AuditItem, key: Seq<char>)
    ensures
        in_severity(item, "critical"@) <==> item.risk_level is Critical,
        in_severity(item, "high"@) <==> item.risk_level is High,
        in_severity(item, "medium"@) <==> item.risk_level is Medium,
        in_severity(item, "low"@) <==> item.risk_level is Low,
        key != "critical"@ && key != "high"@ && key != "medium"@ && key != "low"@ ==> in_severity(
            item,
            key,
        ),
{
    lemma_key_shapes();
}

/// A search keeps an item exactly if its words stand somewhere in the lower-case
/// name or in the lower-case application id; without words it keeps every item.
pub proof fn a_search_keeps_names_and_ids(m: IssueMarkers, item: AuditItem, query: Seq<char>)
    ensures
        in_view(m, item, "all"@, "all"@, query) <==> query.len() == 0 || (exists|
            front: Seq<char>,
            back: Seq<char>,
        |
            lowercase_of(item.application_name@) == #[trigger] (front + query + back)) || exists|
            front: Seq<char>,
            back: Seq<char>,
        |
            lowercase_of(item.app_id@) == #[trigger] (front + query + back),
{
    lemma_key_shapes();
    lemma_finding_keys();
    what_occurs_stands_between(query, lowercase_of(item.application_name@));
    what_occurs_stands_between(query, lowercase_of(item.app_id@));
}

/// Lines are quoted one by one and in order: a line is quoted exactly if it puts an
/// item that has no other line under the finding.
pub proof fn lines_are_quoted_one_by_one(
    m: IssueMarkers,
    item: AuditItem,
    line: String,
    a: Seq<String>,
    b: Seq<String>,
    key: Seq<char>,
)
    requires
        item.issues@ == seq![line],
        marker_of(key) is Some,
    ensures
        quoted_lines(m, seq![line], key) == if has_finding(m, item, key) {
            seq![line@]
        } else {
            Seq::<Seq<char>>::empty()
        },
        quoted_lines(m, a + b, key) == quoted_lines(m, a, key) + quoted_lines(m, b, key),
    decreases b.len(),
{
    reveal_with_fuel(quoted_lines, 2);
    let mark = marker_of(key)->0;
    assert(seq![line].drop_last() =~= Seq::<String>::empty());
    assert(Seq::<Seq<char>>::empty().push(line@) =~= seq![line@]);
    assert(item.issues@[0] == line);
    if has_finding(m, item, key) {
        let k = choose|k: int|
            0 <= k < item.issues@.len() && marks(m, mark, #[trigger] item.issues@[k]@);
        assert(item.issues@[k] == line);
    }
    if b.len() == 0 {
        assert(a + b =~= a);
        assert(quoted_lines(m, a, key) + Seq::<Seq<char>>::empty() =~= quoted_lines(m, a, key));
    } else {
        lines_are_quoted_one_by_one(m, item, line, a, b.drop_last(), key);
        assert((a + b).drop_last() =~= a + b.drop_last());
        assert((a + b).last() == b.last());
        assert(quoted_lines(m, a + b, key) =~= quoted_lines(m, a, key) + quoted_lines(m, b, key));
    }
}

/// The findings that read a field, and keys that name no finding, quote no line.
pub proof fn a_field_quotes_no_line(m: IssueMarkers, issues: Seq<String>)
    ensures
        quoted_lines(m, issues, "expired"@).len() == 0,
        quoted_lines(m, issues, "unused"@).len() == 0,
        quoted_lines(m, issues, "no_local_app"@).len() == 0,
        quoted_lines(m, issues, "all"@).len() == 0,
{
    lemma_finding_keys();
}

} // verus!
