//! The audit dashboard with one flat row of facets: a facet, a search, a sort,
//! summary cards, and the rows that are drawn.

use crate::audit::{
    AuditItem, CredentialStatus, IssueMarkers, RemediationAction, RemediationKind, RiskLevel,
};
use crate::audit_view::controller::AuditController;
use crate::audit_view::filter::{any_marked, in_query, lemma_key_shapes, marks, FindingMarker};
use crate::audit_view::posture::{
    count_issue_prefix, count_level, items_at, items_prefixed,
};
use crate::audit_view::row::{carries, first_of_kind, opens_a_line, opens_line, pick};
use crate::audit_view::sort::{sort_selected, toggle_sort, toggled, Sort, SortCol};
use crate::audit_view::table::{match_label, match_line, table_rows};
use crate::rows::{count_rows, positions, selects, tally, RowTest};
use crate::text::{
    contains_ignore_case, decimal, lower, lowercase_of, occurs_in, same, texts,
    what_occurs_stands_between,
};
use crate::window::{
    drawn, next_page, the_window_draws_no_more_than_there_is, window_over, MoreRows, RowWindow,
    RENDER_PAGE,
};
use vstd::prelude::*;
use vstd::string::*;

verus! {

/// The item's credentials have lapsed or are about to.
pub open spec fn lapsing(item: AuditItem) -> bool {
    item.credential_status is ExpiringSoon || item.credential_status is Expired
}

/// The item is under the facet. `"all"`, and any key that names no facet, does
/// not constrain.
pub open spec fn in_facet(m: IssueMarkers, item: AuditItem, facet: Seq<char>) -> bool {
    if facet == "all"@ {
        true
    } else if facet == "critical"@ {
        item.risk_level is Critical
    } else if facet == "high"@ {
        item.risk_level is High
    } else if facet == "medium"@ {
        item.risk_level is Medium
    } else if facet == "low"@ {
        item.risk_level is Low
    } else if facet == "expiring"@ {
        lapsing(item)
    } else if facet == "high_risk_perms"@ {
        any_marked(m, FindingMarker::HighRiskPerms, item)
    } else if facet == "high_risk_delegated"@ {
        any_marked(m, FindingMarker::HighRiskDelegated, item)
    } else if facet == "orgwide_mailbox"@ {
        any_marked(m, FindingMarker::OrgWideMailbox, item)
    } else if facet == "scoped_mailbox"@ {
        any_marked(m, FindingMarker::ScopedMailbox, item)
    } else if facet == "orgwide_sharepoint"@ {
        any_marked(m, FindingMarker::OrgWideSharePoint, item)
    } else if facet == "scoped_sites"@ {
        any_marked(m, FindingMarker::ScopedSites, item)
    } else if facet == "ownership"@ {
        any_marked(m, FindingMarker::Ownership, item)
    } else if facet == "unused"@ {
        item.unused
    } else {
        true
    }
}

/// Whether the item is under the facet.
pub fn matches_facet(m: &IssueMarkers, item: &AuditItem, facet: &str) -> (r: bool)
    ensures
        r == in_facet(*m, *item, facet@),
{
    if same(facet, "all") {
        true
    } else if same(facet, "critical") {
        matches!(item.risk_level, RiskLevel::Critical)
    } else if same(facet, "high") {
        matches!(item.risk_level, RiskLevel::High)
    } else if same(facet, "medium") {
        matches!(item.risk_level, RiskLevel::Medium)
    } else if same(facet, "low") {
        matches!(item.risk_level, RiskLevel::Low)
    } else if same(facet, "expiring") {
        matches!(
            item.credential_status,
            CredentialStatus::ExpiringSoon | CredentialStatus::Expired
        )
    } else if same(facet, "high_risk_perms") {
        FindingMarker::HighRiskPerms.marks_item(m, item)
    } else if same(facet, "high_risk_delegated") {
        FindingMarker::HighRiskDelegated.marks_item(m, item)
    } else if same(facet, "orgwide_mailbox") {
        FindingMarker::OrgWideMailbox.marks_item(m, item)
    } else if same(facet, "scoped_mailbox") {
        FindingMarker::ScopedMailbox.marks_item(m, item)
    } else if same(facet, "orgwide_sharepoint") {
        FindingMarker::OrgWideSharePoint.marks_item(m, item)
    } else if same(facet, "scoped_sites") {
        FindingMarker::ScopedSites.marks_item(m, item)
    } else if same(facet, "ownership") {
        FindingMarker::Ownership.marks_item(m, item)
    } else if same(facet, "unused") {
        item.unused
    } else {
        true
    }
}

/// The item is under the facet and holds the search text.
pub open spec fn under(
    m: IssueMarkers,
    item: AuditItem,
    facet: Seq<char>,
    query: Seq<char>,
) -> bool {
    in_facet(m, item, facet) && in_query(
        lowercase_of(item.application_name@),
        lowercase_of(item.app_id@),
        query,
    )
}

struct FacetFilter<'a> {
    markers: &'a IssueMarkers,
    facet: &'a str,
    query_lower: &'a str,
}

impl<'a> RowTest<AuditItem> for FacetFilter<'a> {
    closed spec fn holds(&self, row: AuditItem) -> bool {
        under(*self.markers, row, self.facet@, self.query_lower@)
    }

    fn test(&self, row: &AuditItem) -> (r: bool) {
        matches_facet(self.markers, row, self.facet) && (self.query_lower.is_empty()
            || contains_ignore_case(row.application_name.as_str(), self.query_lower)
            || contains_ignore_case(row.app_id.as_str(), self.query_lower))
    }
}

/// The positions of the items under the facet that hold the search text, in
/// their original order. `query_lower` is in lower case already.
pub fn filter_indices(m: &IssueMarkers, items: &[AuditItem], facet: &str, query_lower: &str) -> (r:
    Vec<usize>)
    ensures
        selects(items@, |i: AuditItem| under(*m, i, facet@, query_lower@), r@),
{
    let f = FacetFilter { markers: m, facet, query_lower };
    let r = positions(items, &f);
    proof {
        assert((|i: AuditItem| f.holds(i)) =~= (|i: AuditItem|
            under(*m, i, facet@, query_lower@)));
    }
    r
}

/// The badge of a risk level; critical and high share one.
pub open spec fn facet_badge(level: RiskLevel) -> Seq<char> {
    match level {
        RiskLevel::Critical => "badge--danger"@,
        RiskLevel::High => "badge--danger"@,
        RiskLevel::Medium => "badge--warning"@,
        RiskLevel::Low => "badge--ok"@,
    }
}

/// The badge of a risk level.
pub fn risk_class(level: &RiskLevel) -> (r: &'static str)
    ensures
        r@ == facet_badge(*level),
        level is Critical || level is High ==> r@ == "badge--danger"@,
        level is Medium ==> r@ == "badge--warning"@,
        level is Low ==> r@ == "badge--ok"@,
{
    match level {
        RiskLevel::Critical => "badge--danger",
        RiskLevel::High => "badge--danger",
        RiskLevel::Medium => "badge--warning",
        RiskLevel::Low => "badge--ok",
    }
}

struct Lapsing;

impl RowTest<AuditItem> for Lapsing {
    closed spec fn holds(&self, row: AuditItem) -> bool {
        lapsing(row)
    }

    fn test(&self, row: &AuditItem) -> (r: bool) {
        matches!(
            row.credential_status,
            CredentialStatus::ExpiringSoon | CredentialStatus::Expired
        )
    }
}

/// How many items have credentials that have lapsed or are about to.
pub fn count_expiring(items: &[AuditItem]) -> (r: usize)
    ensures
        r == tally(items@, |i: AuditItem| lapsing(i)),
        r == tally(
            items@,
            |i: AuditItem|
                i.credential_status is ExpiringSoon || i.credential_status is Expired,
        ),
{
    proof {
        assert((|i: AuditItem| Lapsing.holds(i)) =~= (|i: AuditItem| lapsing(i)));
        assert((|i: AuditItem| lapsing(i)) =~= (|i: AuditItem|
            i.credential_status is ExpiringSoon || i.credential_status is Expired));
    }
    count_rows(items, &Lapsing)
}

struct Unused;

impl RowTest<AuditItem> for Unused {
    closed spec fn holds(&self, row: AuditItem) -> bool {
        row.unused
    }

    fn test(&self, row: &AuditItem) -> (r: bool) {
        row.unused
    }
}

/// A summary card: a number, and the facet that a click on it opens.
#[derive(Debug)]
pub struct PostureCard {
    pub label: &'static str,
    pub n: usize,
    pub num_class: String,
    pub target: &'static str,
}

/// The class of the number on a card: muted at zero.
pub open spec fn card_class(n: nat, tone: Seq<char>) -> Seq<char> {
    if n == 0 {
        "dash-metric__num"@
    } else {
        "dash-metric__num dash-metric__num--"@ + tone
    }
}

/// A summary card.
pub fn posture_card(label: &'static str, n: usize, tone: &str, target: &'static str) -> (r:
    PostureCard)
    ensures
        r.label@ == label@,
        r.n == n,
        r.num_class@ == card_class(n as nat, tone@),
        r.target@ == target@,
        n == 0 ==> r.num_class@ == "dash-metric__num"@,
        n > 0 ==> r.num_class@ == "dash-metric__num dash-metric__num--"@ + tone@,
{
    let num_class = if n == 0 {
        "dash-metric__num".to_owned()
    } else {
        let mut s = "dash-metric__num dash-metric__num--".to_owned();
        s.append(tone);
        s
    };
    PostureCard { label, n, num_class, target }
}

/// The card says `label`, counts `n` in the colour `tone`, and opens `target`.
pub open spec fn is_card(
    c: PostureCard,
    label: Seq<char>,
    n: nat,
    tone: Seq<char>,
    target: Seq<char>,
) -> bool {
    &&& c.label@ == label
    &&& c.n == n
    &&& c.num_class@ == card_class(n, tone)
    &&& c.target@ == target
}

/// The cards of a run.
pub open spec fn are_cards(m: IssueMarkers, items: Seq<AuditItem>, cards: Seq<PostureCard>) -> bool {
    &&& cards.len() == 6
    &&& is_card(
        cards[0],
        "Critical"@,
        items_at(items, RiskLevel::Critical),
        "danger"@,
        "critical"@,
    )
    &&& is_card(cards[1], "High"@, items_at(items, RiskLevel::High), "danger"@, "high"@)
    &&& is_card(
        cards[2],
        "Expiring"@,
        tally(items, |i: AuditItem| lapsing(i)),
        "warning"@,
        "expiring"@,
    )
    &&& is_card(
        cards[3],
        "Unused"@,
        tally(items, |i: AuditItem| i.unused),
        "warning"@,
        "unused"@,
    )
    &&& is_card(
        cards[4],
        "Org-wide mailbox"@,
        items_prefixed(items, m.org_wide_mailbox@),
        "warning"@,
        "orgwide_mailbox"@,
    )
    &&& is_card(
        cards[5],
        "Org-wide SharePoint"@,
        items_prefixed(items, m.org_wide_sharepoint@),
        "warning"@,
        "orgwide_sharepoint"@,
    )
}

/// The summary cards of a run.
pub fn posture_cards(m: &IssueMarkers, items: &[AuditItem]) -> (r: Vec<PostureCard>)
    ensures
        are_cards(*m, items@, r@),
{
    proof {
        assert((|i: AuditItem| Unused.holds(i)) =~= (|i: AuditItem| i.unused));
    }
    let mut out: Vec<PostureCard> = Vec::new();
    out.push(
        posture_card("Critical", count_level(items, RiskLevel::Critical), "danger", "critical"),
    );
    out.push(posture_card("High", count_level(items, RiskLevel::High), "danger", "high"));
    out.push(posture_card("Expiring", count_expiring(items), "warning", "expiring"));
    out.push(posture_card("Unused", count_rows(items, &Unused), "warning", "unused"));
    out.push(
        posture_card(
            "Org-wide mailbox",
            count_issue_prefix(items, m.org_wide_mailbox.as_str()),
            "warning",
            "orgwide_mailbox",
        ),
    );
    out.push(
        posture_card(
            "Org-wide SharePoint",
            count_issue_prefix(items, m.org_wide_sharepoint.as_str()),
            "warning",
            "orgwide_sharepoint",
        ),
    );
    out
}

/// What is said where a facet has no rows.
pub open spec fn empty_message(facet: Seq<char>, report_available: bool) -> Seq<char> {
    if facet == "unused"@ && !report_available {
        "No unused apps to show: the sign-in activity report wasn't available. It needs the AuditLog.Read.All permission and Entra ID P1 or P2 — grant consent above and re-run to enable unused-app detection."@
    } else {
        "No applications match this filter."@
    }
}

/// What is said where a facet has no rows; without the sign-in report it
/// explains why nothing counts as unused.
pub fn empty_facet_message(facet: &str, sign_in_report_available: bool) -> (r: &'static str)
    ensures
        r@ == empty_message(facet@, sign_in_report_available),
        sign_in_report_available || facet@ != "unused"@ ==> r@
            == "No applications match this filter."@,
        !sign_in_report_available && facet@ == "unused"@ ==> r@
            == "No unused apps to show: the sign-in activity report wasn't available. It needs the AuditLog.Read.All permission and Entra ID P1 or P2 — grant consent above and re-run to enable unused-app detection."@,
{
    if same(facet, "unused") && !sign_in_report_available {
        "No unused apps to show: the sign-in activity report wasn't available. It needs the AuditLog.Read.All permission and Entra ID P1 or P2 — grant consent above and re-run to enable unused-app detection."
    } else {
        "No applications match this filter."
    }
}

/// The most actionable tab of the item.
pub open spec fn facet_tab(m: IssueMarkers, item: AuditItem) -> Seq<char> {
    if opens_a_line(item, m.org_wide_mailbox@) || any_marked(m, FindingMarker::ScopedMailbox, item)
        || opens_a_line(item, m.org_wide_sharepoint@) || opens_a_line(item, m.scoped_sharepoint@)
        || opens_a_line(item, m.high_risk_app_perms@) || opens_a_line(
        item,
        m.high_risk_delegated_perms@,
    ) || opens_a_line(item, m.redundant_app_perms@) {
        "permissions"@
    } else if opens_a_line(item, m.no_owners@) || opens_a_line(item, m.single_owner@) {
        "owners"@
    } else if lapsing(item) {
        "credentials"@
    } else {
        "overview"@
    }
}

/// The tab of the detail pane on which the item's findings are acted on.
pub fn target_tab(m: &IssueMarkers, item: &AuditItem) -> (r: &'static str)
    ensures
        r@ == facet_tab(*m, *item),
        ({
            let permissions = exists|k: int|
                0 <= k < item.issues@.len() && (m.org_wide_mailbox@.is_prefix_of(
                    #[trigger] item.issues@[k]@,
                ) || occurs_in(m.scoped_via_rbac@, item.issues@[k]@)
                    || m.org_wide_sharepoint@.is_prefix_of(item.issues@[k]@)
                    || m.scoped_sharepoint@.is_prefix_of(item.issues@[k]@)
                    || m.high_risk_app_perms@.is_prefix_of(item.issues@[k]@)
                    || m.high_risk_delegated_perms@.is_prefix_of(item.issues@[k]@)
                    || m.redundant_app_perms@.is_prefix_of(item.issues@[k]@));
            let owners = exists|k: int|
                0 <= k < item.issues@.len() && (m.no_owners@.is_prefix_of(
                    #[trigger] item.issues@[k]@,
                ) || m.single_owner@.is_prefix_of(item.issues@[k]@));
            let credentials = item.credential_status is ExpiringSoon
                || item.credential_status is Expired;
            &&& permissions ==> r@ == "permissions"@
            &&& !permissions && owners ==> r@ == "owners"@
            &&& !permissions && !owners && credentials ==> r@ == "credentials"@
            &&& !permissions && !owners && !credentials ==> r@ == "overview"@
        }),
{
    if opens_line(item, m.org_wide_mailbox.as_str()) || FindingMarker::ScopedMailbox.marks_item(
        m,
        item,
    ) || opens_line(item, m.org_wide_sharepoint.as_str()) || opens_line(
        item,
        m.scoped_sharepoint.as_str(),
    ) || opens_line(item, m.high_risk_app_perms.as_str()) || opens_line(
        item,
        m.high_risk_delegated_perms.as_str(),
    ) || opens_line(item, m.redundant_app_perms.as_str()) {
        "permissions"
    } else if opens_line(item, m.no_owners.as_str()) || opens_line(item, m.single_owner.as_str()) {
        "owners"
    } else if matches!(
        item.credential_status,
        CredentialStatus::ExpiringSoon | CredentialStatus::Expired
    ) {
        "credentials"
    } else {
        "overview"
    }
}

/// What one row offers: where "Open" leads, and the fixes it carries.
#[derive(Debug)]
pub struct FacetRowActions {
    pub object_id: String,
    pub tab: &'static str,
    pub expired: Option<RemediationAction>,
    pub redundant: Option<RemediationAction>,
    pub mailbox: Option<RemediationAction>,
    pub sharepoint: Option<RemediationAction>,
}

/// `a` is the item's first fix of the kind, if it carries one.
pub open spec fn offers(
    item: AuditItem,
    kind: RemediationKind,
    a: Option<RemediationAction>,
) -> bool {
    &&& a is Some <==> carries(item, kind)
    &&& a matches Some(x) ==> exists|k: int| #[trigger]
        first_of_kind(item, kind, k) && x@ == item.remediations@[k]@
}

/// What one row offers.
pub fn row_actions(m: &IssueMarkers, item: &AuditItem) -> (r: FacetRowActions)
    ensures
        r.object_id == item.object_id,
        r.tab@ == facet_tab(*m, *item),
        offers(*item, RemediationKind::RemoveExpiredCredentials, r.expired),
        offers(*item, RemediationKind::RemoveRedundantPermissions, r.redundant),
        offers(*item, RemediationKind::ScopeMailboxAccess, r.mailbox),
        offers(*item, RemediationKind::ScopeSharePointAccess, r.sharepoint),
        r.expired is Some <==> exists|k: int|
            0 <= k < item.remediations@.len()
                && (#[trigger] item.remediations@[k]).kind is RemoveExpiredCredentials,
        r.expired matches Some(x) ==> x.kind is RemoveExpiredCredentials,
        r.redundant is Some <==> exists|k: int|
            0 <= k < item.remediations@.len()
                && (#[trigger] item.remediations@[k]).kind is RemoveRedundantPermissions,
        r.redundant matches Some(x) ==> x.kind is RemoveRedundantPermissions,
        r.mailbox is Some <==> exists|k: int|
            0 <= k < item.remediations@.len()
                && (#[trigger] item.remediations@[k]).kind is ScopeMailboxAccess,
        r.mailbox matches Some(x) ==> x.kind is ScopeMailboxAccess,
        r.sharepoint is Some <==> exists|k: int|
            0 <= k < item.remediations@.len()
                && (#[trigger] item.remediations@[k]).kind is ScopeSharePointAccess,
        r.sharepoint matches Some(x) ==> x.kind is ScopeSharePointAccess,
{
    FacetRowActions {
        object_id: item.object_id.clone(),
        tab: target_tab(m, item),
        expired: pick(item, None, RemediationKind::RemoveExpiredCredentials),
        redundant: pick(item, None, RemediationKind::RemoveRedundantPermissions),
        mailbox: pick(item, None, RemediationKind::ScopeMailboxAccess),
        sharepoint: pick(item, None, RemediationKind::ScopeSharePointAccess),
    }
}

/// What the dashboard is set to.
#[derive(Debug)]
pub struct AuditView {
    pub run: AuditController,
    pub facet: String,
    pub search: String,
    pub sort: Sort,
    pub window: RowWindow,
}

/// The dashboard below its header, once a run is loaded.
#[derive(Debug)]
pub struct FacetScreen {
    pub cards: Vec<PostureCard>,
    pub count_label: String,
    /// Said where nothing matches.
    pub empty: Option<&'static str>,
    /// The items that are drawn, by position in the run.
    pub rows: Vec<usize>,
    pub more: Option<MoreRows>,
}

/// `s` shows the rows `matched` of a run.
pub open spec fn shows_rows(
    a: AuditView,
    m: IssueMarkers,
    matched: Seq<usize>,
    s: FacetScreen,
) -> bool {
    let items = a.run.result->0.items@;
    let limit = a.window.limit as nat;
    &&& are_cards(m, items, s.cards@)
    &&& s.count_label@ == match_line(matched.len(), items.len())
    &&& s.empty is Some <==> matched.len() == 0
    &&& s.empty matches Some(t) ==> t@ == empty_message(
        a.facet@,
        a.run.result->0.sign_in_report_available,
    )
    &&& s.rows@ == matched.take(drawn(limit, matched.len()) as int)
    &&& s.more is Some <==> matched.len() > limit
    &&& s.more matches Some(x) ==> x.label@ == "Showing "@ + decimal(limit) + " of "@ + decimal(
        matched.len(),
    ) + " "@ + "matching rows"@ && x.button@ == "Show "@ + decimal(
        next_page(limit, matched.len()),
    ) + " more"@
}

impl AuditView {
    /// No run, every item, unsorted, the first page.
    pub fn new() -> (r: AuditView)
        ensures
            r.run.well_formed(),
            r.run.result is None,
            r.facet@ == "all"@,
            r.search@.len() == 0,
            r.sort is None,
            r.window.limit == RENDER_PAGE,
    {
        AuditView {
            run: AuditController::new(),
            facet: "all".to_owned(),
            search: String::new(),
            sort: None,
            window: RowWindow::new(),
        }
    }

    /// Another facet, by its tab or by a card; the window is back at the first
    /// page.
    pub fn set_facet(&mut self, facet: &str)
        ensures
            final(self).facet@ == facet@,
            *final(self) == (AuditView {
                facet: final(self).facet,
                window: RowWindow { limit: RENDER_PAGE },
                ..*old(self)
            }),
    {
        self.facet = facet.to_owned();
        self.window.reset();
    }

    /// Another search text; the window is back at the first page.
    pub fn set_search(&mut self, search: &str)
        ensures
            final(self).search@ == search@,
            *final(self) == (AuditView {
                search: final(self).search,
                window: RowWindow { limit: RENDER_PAGE },
                ..*old(self)
            }),
    {
        self.search = search.to_owned();
        self.window.reset();
    }

    /// A click on a heading; the window is back at the first page.
    pub fn click_heading(&mut self, col: SortCol)
        ensures
            *final(self) == (AuditView {
                sort: toggled(old(self).sort, col),
                window: RowWindow { limit: RENDER_PAGE },
                ..*old(self)
            }),
    {
        self.sort = toggle_sort(self.sort, col);
        self.window.reset();
    }

    /// The run has `after` items where it had `before`: another number, and the
    /// window is back at the first page.
    pub fn run_changed(&mut self, before: Option<usize>, after: Option<usize>)
        ensures
            *final(self) == (AuditView {
                window: window_over(old(self).window, before, after),
                ..*old(self)
            }),
    {
        self.window.total_changed(before, after);
    }

    /// "Show more".
    pub fn show_more(&mut self)
        requires
            old(self).window.limit <= usize::MAX - RENDER_PAGE,
        ensures
            *final(self) == (AuditView {
                window: RowWindow { limit: (old(self).window.limit + RENDER_PAGE) as usize },
                ..*old(self)
            }),
    {
        self.window.grow();
    }

    /// The rows of a run that match, in the order of the sort.
    pub fn visible(&self, m: &IssueMarkers, items: &[AuditItem]) -> (r: Vec<usize>)
        ensures
            table_rows(
                items@,
                |i: AuditItem| under(*m, i, self.facet@, lowercase_of(self.search@)),
                self.sort,
                r@,
            ),
    {
        let query = lower(self.search.as_str());
        let rows = filter_indices(m, items, self.facet.as_str(), query.as_str());
        match self.sort {
            None => rows,
            Some((col, desc)) => sort_selected(items, &rows, col, desc),
        }
    }

    /// What the dashboard shows, once a run is loaded.
    pub fn screen(&self, m: &IssueMarkers) -> (r: Option<FacetScreen>)
        ensures
            r is Some <==> self.run.result is Some,
            r matches Some(s) ==> exists|matched: Seq<usize>| #[trigger]
                shows_rows(*self, *m, matched, s) && table_rows(
                    self.run.result->0.items@,
                    |i: AuditItem| under(*m, i, self.facet@, lowercase_of(self.search@)),
                    self.sort,
                    matched,
                ),
    {
        match &self.run.result {
            None => None,
            Some(run) => {
                let items = run.items.as_slice();
                let matched = self.visible(m, items);
                let n = matched.len();
                let empty = if n == 0 {
                    Some(
                        empty_facet_message(self.facet.as_str(), run.sign_in_report_available),
                    )
                } else {
                    None
                };
                let s = FacetScreen {
                    cards: posture_cards(m, items),
                    count_label: match_label(n, items.len()),
                    empty,
                    rows: self.window.first(&matched),
                    more: self.window.more(n, "matching rows"),
                };
                assert(shows_rows(*self, *m, matched@, s));
                Some(s)
            },
        }
    }
}

proof fn lemma_prefixed(m: IssueMarkers, finding: FindingMarker, prefix: Seq<char>)
    requires
        forall|s: Seq<char>| #[trigger] marks(m, finding, s) == prefix.is_prefix_of(s),
    ensures
        (|i: AuditItem| any_marked(m, finding, i)) =~= (|i: AuditItem|
            exists|k: int|
                0 <= k < i.issues@.len() && prefix.is_prefix_of(#[trigger] i.issues@[k]@)),
{
    let p = |i: AuditItem|
        exists|k: int|
            0 <= k < i.issues@.len() && prefix.is_prefix_of(#[trigger] i.issues@[k]@);
    assert forall|i: AuditItem| #[trigger] any_marked(m, finding, i) == p(i) by {
        if any_marked(m, finding, i) {
            let k = choose|k: int|
                0 <= k < i.issues@.len() && marks(m, finding, #[trigger] i.issues@[k]@);
            assert(prefix.is_prefix_of(i.issues@[k]@));
        }
        if p(i) {
            let k = choose|k: int|
                0 <= k < i.issues@.len() && prefix.is_prefix_of(#[trigger] i.issues@[k]@);
            assert(marks(m, finding, i.issues@[k]@));
        }
    }
    assert((|i: AuditItem| any_marked(m, finding, i)) =~= p);
}

/// The number on every card is the number of rows that a click on it shows when
/// nothing is searched for.
pub proof fn cards_count_their_facet(
    m: IssueMarkers,
    items: Seq<AuditItem>,
    cards: Seq<PostureCard>,
    k: int,
)
    requires
        are_cards(m, items, cards),
        0 <= k < cards.len(),
    ensures
        cards[k].n == tally(items, |i: AuditItem| under(m, i, cards[k].target@, Seq::empty())),
{
    reveal_strlit("all");
    assert("all"@.len() == 3);
    reveal_strlit("critical");
    assert("critical"@.len() == 8);
    reveal_strlit("high");
    assert("high"@.len() == 4);
    reveal_strlit("medium");
    assert("medium"@.len() == 6);
    reveal_strlit("low");
    assert("low"@.len() == 3);
    reveal_strlit("expiring");
    assert("expiring"@.len() == 8);
    reveal_strlit("high_risk_perms");
    assert("high_risk_perms"@.len() == 15);
    reveal_strlit("high_risk_delegated");
    assert("high_risk_delegated"@.len() == 19);
    reveal_strlit("orgwide_mailbox");
    assert("orgwide_mailbox"@.len() == 15);
    reveal_strlit("scoped_mailbox");
    assert("scoped_mailbox"@.len() == 14);
    reveal_strlit("orgwide_sharepoint");
    assert("orgwide_sharepoint"@.len() == 18);
    reveal_strlit("scoped_sites");
    assert("scoped_sites"@.len() == 12);
    reveal_strlit("ownership");
    assert("ownership"@.len() == 9);
    reveal_strlit("unused");
    assert("unused"@.len() == 6);
    assert("all"@[0] == 'a');
    assert("low"@[0] == 'l');
    assert("critical"@[0] == 'c');
    assert("expiring"@[0] == 'e');
    assert("medium"@[0] == 'm');
    assert("unused"@[0] == 'u');
    assert("high_risk_perms"@[0] == 'h');
    assert("orgwide_mailbox"@[0] == 'o');
    lemma_prefixed(m, FindingMarker::OrgWideMailbox, m.org_wide_mailbox@);
    lemma_prefixed(m, FindingMarker::OrgWideSharePoint, m.org_wide_sharepoint@);
    let p = |i: AuditItem| under(m, i, cards[k].target@, Seq::empty());
    if k == 0 {
        assert(p =~= (|i: AuditItem| i.risk_level == RiskLevel::Critical));
    } else if k == 1 {
        assert(p =~= (|i: AuditItem| i.risk_level == RiskLevel::High));
    } else if k == 2 {
        assert(p =~= (|i: AuditItem| lapsing(i)));
    } else if k == 3 {
        assert(p =~= (|i: AuditItem| i.unused));
    } else if k == 4 {
        assert(p =~= (|i: AuditItem| any_marked(m, FindingMarker::OrgWideMailbox, i)));
    } else {
        assert(p =~= (|i: AuditItem| any_marked(m, FindingMarker::OrgWideSharePoint, i)));
    }
}

/// With no search, each facet keeps the items with its own evidence: a risk level, a
/// credential that has lapsed or is about to, the mark of an unused item, or an issue
/// line that opens with its phrase (or, for the confined mailbox, holds it). Any
/// other key keeps them all.
pub proof fn each_facet_keeps_its_own_items(m: IssueMarkers, item: AuditItem, key: Seq<char>)
    ensures
        under(m, item, "critical"@, Seq::empty()) <==> item.risk_level is Critical,
        under(m, item, "high"@, Seq::empty()) <==> item.risk_level is High,
        under(m, item, "medium"@, Seq::empty()) <==> item.risk_level is Medium,
        under(m, item, "low"@, Seq::empty()) <==> item.risk_level is Low,
        under(m, item, "expiring"@, Seq::empty()) <==> item.credential_status is ExpiringSoon
            || item.credential_status is Expired,
        under(m, item, "unused"@, Seq::empty()) <==> item.unused,
        under(m, item, "high_risk_perms"@, Seq::empty()) <==> exists|k: int|
            0 <= k < item.issues@.len() && (m.high_risk_app_perms@.is_prefix_of(
                #[trigger] item.issues@[k]@,
            )),
        under(m, item, "high_risk_delegated"@, Seq::empty()) <==> exists|k: int|
            0 <= k < item.issues@.len() && (m.high_risk_delegated_perms@.is_prefix_of(
                #[trigger] item.issues@[k]@,
            )),
        under(m, item, "orgwide_mailbox"@, Seq::empty()) <==> exists|k: int|
            0 <= k < item.issues@.len() && (m.org_wide_mailbox@.is_prefix_of(
                #[trigger] item.issues@[k]@,
            )),
        under(m, item, "orgwide_sharepoint"@, Seq::empty()) <==> exists|k: int|
            0 <= k < item.issues@.len() && (m.org_wide_sharepoint@.is_prefix_of(
                #[trigger] item.issues@[k]@,
            )),
        under(m, item, "scoped_sites"@, Seq::empty()) <==> exists|k: int|
            0 <= k < item.issues@.len() && (m.scoped_sharepoint@.is_prefix_of(
                #[trigger] item.issues@[k]@,
            )),
        under(m, item, "ownership"@, Seq::empty()) <==> exists|k: int|
            0 <= k < item.issues@.len() && (m.no_owners@.is_prefix_of(
                #[trigger] item.issues@[k]@,
            ) || m.single_owner@.is_prefix_of(item.issues@[k]@)),
        under(m, item, "scoped_mailbox"@, Seq::empty()) <==> exists|k: int|
            0 <= k < item.issues@.len() && occurs_in(
                m.scoped_via_rbac@,
                #[trigger] item.issues@[k]@,
            ),
        key != "critical"@ && key != "high"@ && key != "medium"@ && key != "low"@ && key
            != "expiring"@ && key != "high_risk_perms"@ && key != "high_risk_delegated"@ && key
            != "orgwide_mailbox"@ && key != "scoped_mailbox"@ && key != "orgwide_sharepoint"@ && key
            != "scoped_sites"@ && key != "ownership"@ && key != "unused"@ ==> under(
            m,
            item,
            key,
            Seq::empty(),
        ),
{
    lemma_key_shapes();
}

/// A search narrows a facet to the items with its words somewhere in the lower-case
/// name or in the lower-case application id; without words it narrows nothing.
pub proof fn a_search_narrows_a_facet(
    m: IssueMarkers,
    item: AuditItem,
    facet: Seq<char>,
    query: Seq<char>,
)
    ensures
        under(m, item, facet, query) <==> under(m, item, facet, Seq::empty()) && (query.len() == 0
            || (exists|front: Seq<char>, back: Seq<char>|
            lowercase_of(item.application_name@) == #[trigger] (front + query + back)) || exists|
            front: Seq<char>,
            back: Seq<char>,
        |
            lowercase_of(item.app_id@) == #[trigger] (front + query + back)),
{
    what_occurs_stands_between(query, lowercase_of(item.application_name@));
    what_occurs_stands_between(query, lowercase_of(item.app_id@));
}

/// The cards stand in this order, with these words and these facets, and each counts
/// the items of its facet by their own evidence.
pub proof fn each_card_counts_its_own_evidence(
    m: IssueMarkers,
    items: Seq<AuditItem>,
    cards: Seq<PostureCard>,
)
    requires
        are_cards(m, items, cards),
    ensures
        cards.len() == 6,
        cards[0].label@ == "Critical"@ && cards[0].target@ == "critical"@,
        cards[1].label@ == "High"@ && cards[1].target@ == "high"@,
        cards[2].label@ == "Expiring"@ && cards[2].target@ == "expiring"@,
        cards[3].label@ == "Unused"@ && cards[3].target@ == "unused"@,
        cards[4].label@ == "Org-wide mailbox"@ && cards[4].target@ == "orgwide_mailbox"@,
        cards[5].label@ == "Org-wide SharePoint"@ && cards[5].target@ == "orgwide_sharepoint"@,
        cards[0].n == tally(items, |i: AuditItem| i.risk_level == RiskLevel::Critical),
        cards[1].n == tally(items, |i: AuditItem| i.risk_level == RiskLevel::High),
        cards[2].n == tally(
            items,
            |i: AuditItem|
                i.credential_status is ExpiringSoon || i.credential_status is Expired,
        ),
        cards[3].n == tally(items, |i: AuditItem| i.unused),
        forall|k: int|
            0 <= k < 6 ==> ((#[trigger] cards[k]).n == 0 ==> cards[k].num_class@
                == "dash-metric__num"@),
        forall|k: int|
            0 <= k < 2 ==> ((#[trigger] cards[k]).n > 0 ==> cards[k].num_class@
                == "dash-metric__num dash-metric__num--"@ + "danger"@),
        forall|k: int|
            2 <= k < 6 ==> ((#[trigger] cards[k]).n > 0 ==> cards[k].num_class@
                == "dash-metric__num dash-metric__num--"@ + "warning"@),
{
    assert((|i: AuditItem| lapsing(i)) =~= (|i: AuditItem|
        i.credential_status is ExpiringSoon || i.credential_status is Expired));
}

/// What the dashboard draws are the first matches, as many as the window is wide;
/// the line above counts all of them, and "Show more" is there exactly while some
/// are left out.
pub proof fn the_dashboard_draws_the_first_matches(
    a: AuditView,
    m: IssueMarkers,
    matched: Seq<usize>,
    s: FacetScreen,
)
    requires
        shows_rows(a, m, matched, s),
    ensures
        s.rows@.is_prefix_of(matched),
        s.rows@.len() == matched.len() || s.rows@.len() == a.window.limit,
        s.rows@.len() <= a.window.limit,
        s.empty is Some <==> matched.len() == 0,
        s.more is Some <==> s.rows@.len() < matched.len(),
        s.count_label@ == decimal(matched.len()) + " of "@ + decimal(a.run.result->0.items@.len())
            + " apps match"@,
        are_cards(m, a.run.result->0.items@, s.cards@),
        s.more matches Some(x) ==> x.label@ == "Showing "@ + decimal(a.window.limit as nat)
            + " of "@ + decimal(matched.len()) + " "@ + "matching rows"@,
        s.more matches Some(x) ==> x.button@ == "Show "@ + decimal(
            next_page(a.window.limit as nat, matched.len()),
        ) + " more"@,
        s.empty matches Some(t) ==> (a.facet@ != "unused"@
            || a.run.result->0.sign_in_report_available ==> t@
            == "No applications match this filter."@),
{
    the_window_draws_no_more_than_there_is(a.window.limit as nat, matched.len());
}

/// A row offers the first fix of the kind that its item carries, word for word, and
/// none where the item carries none.
pub proof fn a_row_offers_its_own_fix(
    item: AuditItem,
    kind: RemediationKind,
    a: Option<RemediationAction>,
)
    requires
        offers(item, kind, a),
    ensures
        a is Some <==> exists|k: int|
            0 <= k < item.remediations@.len() && (#[trigger] item.remediations@[k]).kind == kind,
        a matches Some(x) ==> x.kind == kind && exists|k: int|
            0 <= k < item.remediations@.len() && (#[trigger] item.remediations@[k]).kind == kind
                && (forall|j: int| 0 <= j < k ==> (#[trigger] item.remediations@[j]).kind != kind)
                && x.label@ == item.remediations@[k].label@ && x.detail@
                == item.remediations@[k].detail@ && texts(x.targets@) == texts(
                item.remediations@[k].targets@,
            ),
{
    if let Some(x) = a {
        let k = choose|k: int| #[trigger]
            first_of_kind(item, kind, k) && x@ == item.remediations@[k]@;
        assert(x@.kind == item.remediations@[k]@.kind);
        assert(x@.label == item.remediations@[k]@.label);
        assert(x@.detail == item.remediations@[k]@.detail);
        assert(x@.targets == item.remediations@[k]@.targets);
    }
}

} // verus!
