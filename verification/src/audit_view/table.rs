//! The ranked table of all audited apps: one severity, a search, a sort, and
//! the rows that are drawn.

use crate::audit::{AuditItem, AuditPrincipalKind, IssueMarkers, RemediationAction, RiskLevel};
use crate::audit_view::controller::{fix_dropped, AuditController};
use crate::audit_view::filter::{filter_indices, in_view};
use crate::audit_view::sort::{sort_selected, sorted_rows, toggle_sort, toggled, Sort, SortCol};
use crate::order::rearranged;
use crate::rows::{a_selection_is_exact, selection_size, selects, tally};
use crate::text::{count, decimal, lower, lowercase_of, texts};
use crate::time::{calendar_date, date_text};
use crate::window::{
    drawn, next_page, the_window_draws_no_more_than_there_is, window_over, MoreRows, RowWindow,
    RENDER_PAGE,
};
use vstd::prelude::*;
use vstd::string::*;

verus! {

/// How many issue lines a row shows.
pub const ISSUES_INLINE: usize = 2;

/// What the table of all apps is set to.
#[derive(Debug)]
pub struct AuditAppsPane {
    pub severity: String,
    pub search: String,
    pub sort: Sort,
    pub window: RowWindow,
}

/// `rows` are the items in view, in the order of the sort.
pub open spec fn table_rows(
    items: Seq<AuditItem>,
    p: spec_fn(AuditItem) -> bool,
    sort: Sort,
    rows: Seq<usize>,
) -> bool {
    match sort {
        None => selects(items, p, rows),
        Some((col, desc)) => (exists|sel: Seq<usize>| #[trigger]
            selects(items, p, sel) && rearranged(rows, sel)) && sorted_rows(items, col, desc, rows),
    }
}

impl AuditAppsPane {
    /// Every app, unsorted, the first page.
    pub fn new() -> (r: AuditAppsPane)
        ensures
            r.severity@ == "all"@,
            r.search@.len() == 0,
            r.sort is None,
            r.window.limit == RENDER_PAGE,
    {
        AuditAppsPane {
            severity: "all".to_owned(),
            search: String::new(),
            sort: None,
            window: RowWindow::new(),
        }
    }

    /// Another severity; the window is back at the first page.
    pub fn set_severity(&mut self, severity: &str)
        ensures
            final(self).severity@ == severity@,
            *final(self) == (AuditAppsPane {
                severity: final(self).severity,
                window: RowWindow { limit: RENDER_PAGE },
                ..*old(self)
            }),
    {
        self.severity = severity.to_owned();
        self.window.reset();
    }

    /// Another search text; the window is back at the first page.
    pub fn set_search(&mut self, search: &str)
        ensures
            final(self).search@ == search@,
            *final(self) == (AuditAppsPane {
                search: final(self).search,
                window: RowWindow { limit: RENDER_PAGE },
                ..*old(self)
            }),
    {
        self.search = search.to_owned();
        self.window.reset();
    }

    /// A click on a heading; the window is back at the first page.
    pub fn click_heading(&mut self, col: SortCol)
        ensures
            *final(self) == (AuditAppsPane {
                sort: toggled(old(self).sort, col),
                window: RowWindow { limit: RENDER_PAGE },
                ..*old(self)
            }),
    {
        self.sort = toggle_sort(self.sort, col);
        self.window.reset();
    }

    /// The run has `after` items where it had `before`: another number, and the
    /// window is back at the first page.
    pub fn run_changed(&mut self, before: Option<usize>, after: Option<usize>)
        ensures
            *final(self) == (AuditAppsPane {
                window: window_over(old(self).window, before, after),
                ..*old(self)
            }),
    {
        self.window.total_changed(before, after);
    }

    /// "Show more".
    pub fn show_more(&mut self)
        requires
            old(self).window.limit <= usize::MAX - RENDER_PAGE,
        ensures
            *final(self) == (AuditAppsPane {
                window: RowWindow { limit: (old(self).window.limit + RENDER_PAGE) as usize },
                ..*old(self)
            }),
    {
        self.window.grow();
    }

    /// The rows that match, in the order of the sort.
    pub fn visible(&self, m: &IssueMarkers, items: &[AuditItem]) -> (r: Vec<usize>)
        ensures
            table_rows(
                items@,
                |i: AuditItem|
                    in_view(*m, i, self.severity@, "all"@, lowercase_of(self.search@)),
                self.sort,
                r@,
            ),
    {
        let query = lower(self.search.as_str());
        let rows = filter_indices(m, items, self.severity.as_str(), "all", query.as_str());
        match self.sort {
            None => rows,
            Some((col, desc)) => sort_selected(items, &rows, col, desc),
        }
    }
}

/// The pane below its filter, once a run is loaded.
#[derive(Debug)]
pub struct AppsScreen {
    pub count_label: String,
    /// The ids that "select all" selects: every match, drawn or not, that is an
    /// app registration.
    pub visible_ids: Vec<String>,
    /// Nothing matches.
    pub empty: bool,
    /// The items that are drawn, by position in the run.
    pub rows: Vec<usize>,
    pub more: Option<MoreRows>,
}

/// `s` shows the rows `matched` of a run.
pub open spec fn shows_apps(
    pane: AuditAppsPane,
    items: Seq<AuditItem>,
    matched: Seq<usize>,
    s: AppsScreen,
) -> bool {
    let limit = pane.window.limit as nat;
    &&& s.count_label@ == match_line(matched.len(), items.len())
    &&& texts(s.visible_ids@) == eligible(items, matched)
    &&& s.empty == (matched.len() == 0)
    &&& s.rows@ == matched.take(drawn(limit, matched.len()) as int)
    &&& s.more is Some <==> matched.len() > limit
    &&& s.more matches Some(x) ==> x.label@ == "Showing "@ + decimal(limit) + " of "@ + decimal(
        matched.len(),
    ) + " "@ + "matching rows"@ && x.button@ == "Show "@ + decimal(
        next_page(limit, matched.len()),
    ) + " more"@
}

impl AuditAppsPane {
    /// What the pane shows of a run.
    pub fn screen(&self, m: &IssueMarkers, items: &[AuditItem]) -> (r: AppsScreen)
        ensures
            exists|matched: Seq<usize>| #[trigger]
                shows_apps(*self, items@, matched, r) && table_rows(
                    items@,
                    |i: AuditItem|
                        in_view(*m, i, self.severity@, "all"@, lowercase_of(self.search@)),
                    self.sort,
                    matched,
                ),
    {
        let matched = self.visible(m, items);
        let n = matched.len();
        let r = AppsScreen {
            count_label: match_label(n, items.len()),
            visible_ids: eligible_ids(items, &matched),
            empty: n == 0,
            rows: self.window.first(&matched),
            more: self.window.more(n, "matching rows"),
        };
        assert(shows_apps(*self, items@, matched@, r));
        r
    }
}

/// The ids of the app registrations among the rows, in order: a bulk fix acts
/// on app registrations only.
pub open spec fn eligible(items: Seq<AuditItem>, rows: Seq<usize>) -> Seq<Seq<char>>
    decreases rows.len(),
{
    if rows.len() == 0 {
        Seq::empty()
    } else {
        let before = eligible(items, rows.drop_last());
        let i = rows.last() as int;
        if i < items.len() && items[i].principal_kind is Application {
            before.push(items[i].object_id@)
        } else {
            before
        }
    }
}

/// The ids of the app registrations among the rows, in order.
pub fn eligible_ids(items: &[AuditItem], rows: &Vec<usize>) -> (r: Vec<String>)
    ensures
        texts(r@) == eligible(items@, rows@),
{
    let mut out: Vec<String> = Vec::new();
    proof {
        assert(texts(out@) =~= Seq::empty());
    }
    for k in 0..rows.len()
        invariant
            texts(out@) == eligible(items@, rows@.take(k as int)),
    {
        proof {
            assert(rows@.take(k as int + 1).drop_last() =~= rows@.take(k as int));
            assert(rows@.take(k as int + 1).last() == rows@[k as int]);
        }
        let ghost before = out@;
        if rows[k] < items.len() && items[rows[k]].principal_kind
            == AuditPrincipalKind::Application {
            out.push(items[rows[k]].object_id.clone());
            proof {
                assert(texts(out@) =~= texts(before).push(items@[rows@[k as int] as int].object_id@));
            }
        }
    }
    proof {
        assert(rows@.take(rows@.len() as int) =~= rows@);
    }
    out
}

/// Every id that a bulk fix may act on belongs to an app registration of the
/// run: no service principal, no managed identity.
pub proof fn only_app_registrations_are_eligible(
    items: Seq<AuditItem>,
    rows: Seq<usize>,
    id: Seq<char>,
)
    requires
        eligible(items, rows).contains(id),
    ensures
        exists|i: int|
            0 <= i < items.len() && (#[trigger] items[i]).principal_kind is Application
                && items[i].object_id@ == id && rows.contains(i as usize),
    decreases rows.len(),
{
    if rows.len() > 0 {
        let before = eligible(items, rows.drop_last());
        let i = rows.last() as int;
        if before.contains(id) {
            only_app_registrations_are_eligible(items, rows.drop_last(), id);
            let j = choose|j: int|
                0 <= j < items.len() && (#[trigger] items[j]).principal_kind is Application
                    && items[j].object_id@ == id && rows.drop_last().contains(j as usize);
            let w = choose|w: int|
                0 <= w < rows.drop_last().len() && rows.drop_last()[w] == j as usize;
            assert(rows[w] == j as usize);
        } else {
            let e = eligible(items, rows);
            let w = choose|w: int| 0 <= w < e.len() && e[w] == id;
            assert(i < items.len() && items[i].principal_kind is Application) by {
                if !(i < items.len() && items[i].principal_kind is Application) {
                    assert(before[w] == id);
                }
            }
            if w < before.len() {
                assert(before[w] == id);
            }
            assert(rows[rows.len() - 1] == i as usize);
        }
    }
}

/// A fix changes no number of items: however far the table is drawn, it stays
/// drawn.
pub proof fn a_fix_keeps_the_window(
    w: RowWindow,
    before: AuditController,
    after: AuditController,
    id: Seq<char>,
    keep: spec_fn(RemediationAction) -> bool,
)
    requires
        before.result is Some && after.result is Some,
        fix_dropped(before.result->0.items@, after.result->0.items@, id, keep),
    ensures
        window_over(
            w,
            Some(before.result->0.items@.len() as usize),
            Some(after.result->0.items@.len() as usize),
        ) == w,
{
}

/// The line above the table.
pub open spec fn match_line(matched: nat, total: nat) -> Seq<char> {
    decimal(matched) + " of "@ + decimal(total) + " apps match"@
}

/// The line above the table.
pub fn match_label(matched: usize, total: usize) -> (r: String)
    ensures
        r@ == match_line(matched as nat, total as nat),
        r@ == decimal(matched as nat) + " of "@ + decimal(total as nat) + " apps match"@,
{
    let mut s = count(matched);
    s.append(" of ");
    s.append(count(total).as_str());
    s.append(" apps match");
    s
}

/// The label of a row's checkbox.
pub fn check_label(name: &str) -> (r: String)
    ensures
        r@ == "Select "@ + name@ + " for bulk actions"@,
{
    let mut s = "Select ".to_owned();
    s.append(name);
    s.append(" for bulk actions");
    s
}

/// The badge of a risk level.
pub open spec fn risk_badge(level: RiskLevel) -> Seq<char> {
    match level {
        RiskLevel::Critical => "badge--critical"@,
        RiskLevel::High => "badge--danger"@,
        RiskLevel::Medium => "badge--warning"@,
        RiskLevel::Low => "badge--ok"@,
    }
}

/// The badge of a risk level.
pub fn risk_class(level: &RiskLevel) -> (r: &'static str)
    ensures
        r@ == risk_badge(*level),
        level is Critical ==> r@ == "badge--critical"@,
        level is High ==> r@ == "badge--danger"@,
        level is Medium ==> r@ == "badge--warning"@,
        level is Low ==> r@ == "badge--ok"@,
{
    match level {
        RiskLevel::Critical => "badge--critical",
        RiskLevel::High => "badge--danger",
        RiskLevel::Medium => "badge--warning",
        RiskLevel::Low => "badge--ok",
    }
}

/// What the last-sign-in column says. Without a report an empty value does not
/// mean that the app was never used.
#[derive(Debug)]
pub enum SignInCell {
    /// The report was not available.
    Unavailable,
    /// No sign-in on record.
    Never,
    /// The date of the last sign-in.
    On(String),
}

/// What the last-sign-in column says.
pub fn last_sign_in_cell(item: &AuditItem) -> (r: SignInCell)
    ensures
        !item.sign_in_report_available <==> r is Unavailable,
        item.sign_in_report_available && item.last_sign_in is None <==> r is Never,
        r matches SignInCell::On(s) ==> item.last_sign_in is Some && s@ == calendar_date(
            item.last_sign_in->0@,
        ),
{
    if !item.sign_in_report_available {
        return SignInCell::Unavailable;
    }
    match item.last_sign_in {
        Some(at) => SignInCell::On(date_text(at)),
        None => SignInCell::Never,
    }
}

/// The issue lines that a row shows, and what it says of those it leaves out.
#[derive(Debug)]
pub struct IssueCell {
    pub shown: Vec<String>,
    pub more: Option<String>,
}

/// How many of `n` issue lines a row shows.
pub open spec fn inline_issues(n: nat) -> nat {
    if n < ISSUES_INLINE {
        n
    } else {
        ISSUES_INLINE as nat
    }
}

/// The issue lines that a row shows.
pub fn issue_cell(item: &AuditItem) -> (r: IssueCell)
    ensures
        r.shown@ == item.issues@.take(inline_issues(item.issues@.len()) as int),
        r.shown@.is_prefix_of(item.issues@),
        r.shown@.len() == item.issues@.len() || r.shown@.len() == 2,
        r.shown@.len() <= 2,
        r.more is Some <==> item.issues@.len() > ISSUES_INLINE,
        r.more is Some <==> item.issues@.len() > 2,
        r.more matches Some(t) ==> t@ == "+"@ + decimal((item.issues@.len() - 2) as nat)
            + " more — open to see all"@,
        r.more matches Some(t) ==> t@ == "+"@ + decimal(
            (item.issues@.len() - ISSUES_INLINE) as nat,
        ) + " more — open to see all"@,
{
    let n = item.issues.len();
    let k: usize = if n < ISSUES_INLINE {
        n
    } else {
        ISSUES_INLINE
    };
    let mut shown: Vec<String> = Vec::new();
    for j in 0..k
        invariant
            k <= item.issues@.len(),
            shown@ == item.issues@.take(j as int),
    {
        shown.push(item.issues[j].clone());
    }
    let more = if n > ISSUES_INLINE {
        let mut s = "+".to_owned();
        s.append(count(n - ISSUES_INLINE).as_str());
        s.append(" more — open to see all");
        Some(s)
    } else {
        None
    };
    IssueCell { shown, more }
}

/// The rows of a table are exactly the items in view, whatever the sort, each once;
/// without a sort they stand in the order of the run, with one in its order.
pub proof fn a_table_shows_exactly_what_is_in_view(
    items: Seq<AuditItem>,
    p: spec_fn(AuditItem) -> bool,
    sort: Sort,
    rows: Seq<usize>,
    i: usize,
)
    requires
        table_rows(items, p, sort, rows),
        items.len() <= usize::MAX,
    ensures
        rows.contains(i) <==> i < items.len() && p(items[i as int]),
        rows.len() == tally(items, p),
        rows.no_duplicates(),
        sort is None ==> forall|j: int, k: int| 0 <= j < k < rows.len() ==> rows[j] < rows[k],
        sort matches Some((col, desc)) ==> sorted_rows(items, col, desc, rows),
{
    let sel = match sort {
        None => rows,
        Some(_) => choose|sel: Seq<usize>| #[trigger]
            selects(items, p, sel) && rearranged(rows, sel),
    };
    assert(selects(items, p, sel) && rearranged(rows, sel));
    a_selection_is_exact(items, p, sel, i, 0, 0);
    selection_size(items, p, sel);
    broadcast use vstd::seq_lib::group_to_multiset_ensures;

    assert(rows.len() == rows.to_multiset().len());
    assert(sel.len() == sel.to_multiset().len());
    assert(rows.contains(i) <==> rows.to_multiset().count(i) > 0);
    assert(sel.contains(i) <==> sel.to_multiset().count(i) > 0);
    assert(sel.no_duplicates());
    sel.lemma_multiset_has_no_duplicates();
    rows.lemma_multiset_has_no_duplicates_conv();
}

/// "Select all" takes the app registrations among the rows, one by one and in order.
pub proof fn ids_are_taken_row_by_row(
    items: Seq<AuditItem>,
    row: usize,
    a: Seq<usize>,
    b: Seq<usize>,
)
    requires
        row < items.len(),
    ensures
        eligible(items, seq![row]) == if items[row as int].principal_kind is Application {
            seq![items[row as int].object_id@]
        } else {
            Seq::<Seq<char>>::empty()
        },
        eligible(items, a + b) == eligible(items, a) + eligible(items, b),
    decreases b.len(),
{
    reveal_with_fuel(eligible, 2);
    assert(seq![row].drop_last() =~= Seq::<usize>::empty());
    assert(seq![row].last() == row);
    assert(Seq::<Seq<char>>::empty().push(items[row as int].object_id@) =~= seq![
        items[row as int].object_id@,
    ]);
    if b.len() == 0 {
        assert(a + b =~= a);
        assert(eligible(items, a) + Seq::<Seq<char>>::empty() =~= eligible(items, a));
    } else {
        ids_are_taken_row_by_row(items, row, a, b.drop_last());
        assert((a + b).drop_last() =~= a + b.drop_last());
        assert((a + b).last() == b.last());
        assert(eligible(items, a + b) =~= eligible(items, a) + eligible(items, b));
    }
}

/// What the pane draws are the first matches, as many as the window is wide; the
/// line above counts all of them, and "Show more" is there exactly while some are
/// left out.
pub proof fn the_pane_draws_the_first_matches(
    pane: AuditAppsPane,
    items: Seq<AuditItem>,
    matched: Seq<usize>,
    s: AppsScreen,
)
    requires
        shows_apps(pane, items, matched, s),
    ensures
        s.rows@.is_prefix_of(matched),
        s.rows@.len() == matched.len() || s.rows@.len() == pane.window.limit,
        s.rows@.len() <= pane.window.limit,
        s.empty <==> matched.len() == 0,
        s.more is Some <==> s.rows@.len() < matched.len(),
        s.count_label@ == decimal(matched.len()) + " of "@ + decimal(items.len())
            + " apps match"@,
        texts(s.visible_ids@) == eligible(items, matched),
        s.more matches Some(x) ==> x.label@ == "Showing "@ + decimal(pane.window.limit as nat)
            + " of "@ + decimal(matched.len()) + " "@ + "matching rows"@,
        s.more matches Some(x) ==> x.button@ == "Show "@ + decimal(
            next_page(pane.window.limit as nat, matched.len()),
        ) + " more"@,
{
    the_window_draws_no_more_than_there_is(pane.window.limit as nat, matched.len());
}

} // verus!
