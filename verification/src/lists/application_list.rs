//! The list of app registrations: search, filters, order, and what a row shows.

use crate::audit::{BulkAction, ListCredentialStatus};
use crate::lists::filters::{
    a_search_finds_its_words, active_filters, both_ends_of_the_range_are_in, created_in_range,
    filters_set, found, hit, in_range, is_hit, name_or_id, needle, row_name, EmptyList,
};
use crate::order::{
    ascending, lemma_rearranged_members, order_is_unique, rearranged, reversed, Ranking,
};
use crate::rows::{
    a_selection_is_exact, count_rows, positions, selection_size, selects, tally, RowTest,
};
use crate::session::is_text;
use crate::sorting::{arrow, arrow_text, click, clicked, TextOrder};
use crate::text::{
    an_opening_comes_first, characters, count, decimal, lower, lowercase_of, same, text_le,
    the_first_difference_decides, trimmed, white,
};
use crate::time::{
    calendar_date, date_text, days_from, days_until, relative_phrase, relative_time,
    signed_decimal, signed_number, Timestamp,
};
use std::cmp::Ordering;
use vstd::laws_cmp::{
    obeys_cmp, obeys_cmp_ord, obeys_cmp_partial_ord, obeys_partial_cmp_spec_properties,
};
use vstd::prelude::*;
use vstd::std_specs::cmp::{OrdSpec, PartialOrdSpec};
use vstd::string::*;

verus! {

/// How many rows the backend loads at most.
pub const APPS_HARD_CAP: usize = 10_000;

/// A row of the list.
#[derive(Debug)]
pub struct ApplicationListRow {
    pub id: String,
    pub app_id: String,
    pub display_name: String,
    pub created: Option<Timestamp>,
    pub soonest_credential_expiry: Option<Timestamp>,
    pub credential_status: ListCredentialStatus,
    pub paired_service_principal_id: Option<String>,
}

/// A column by which the list can be sorted. Unsorted, it keeps the order in
/// which it was loaded.
#[derive(Clone, Copy, Debug, PartialEq, Eq, Structural)]
pub enum AppSortCol {
    Name,
    Expiry,
    Created,
}

impl AppSortCol {
    /// The direction of the first click: names from A to Z, the soonest expiry
    /// first, the newest app first.
    pub open spec fn starts_desc(self) -> bool {
        self is Created
    }

    /// The direction of the first click.
    pub fn default_desc(self) -> (r: bool)
        ensures
            r == self.starts_desc(),
            r == (self is Created),
    {
        matches!(self, AppSortCol::Created)
    }

    /// The text of the column's button.
    pub fn label(self) -> (r: &'static str)
        ensures
            r@ == match self {
                AppSortCol::Name => "Name"@,
                AppSortCol::Expiry => "Soonest expiry"@,
                AppSortCol::Created => "Created"@,
            },
    {
        match self {
            AppSortCol::Name => "Name",
            AppSortCol::Expiry => "Soonest expiry",
            AppSortCol::Created => "Created",
        }
    }
}

/// The column and the direction of a sort, if there is one.
pub type AppSort = Option<(AppSortCol, bool)>;

/// The direction in which `col` is sorted, if it is the column of the sort.
pub open spec fn direction(sort: AppSort, col: AppSortCol) -> Option<bool> {
    match sort {
        Some((c, desc)) => if c == col {
            Some(desc)
        } else {
            None
        },
        None => None,
    }
}

fn direction_of(sort: AppSort, col: AppSortCol) -> (r: Option<bool>)
    ensures
        r == direction(sort, col),
{
    match sort {
        Some((c, desc)) => {
            if c == col {
                Some(desc)
            } else {
                None
            }
        },
        None => None,
    }
}

/// The sort after a click on the button of `col`.
pub open spec fn toggled(sort: AppSort, col: AppSortCol) -> AppSort {
    match clicked(direction(sort, col), col.starts_desc()) {
        Some(desc) => Some((col, desc)),
        None => None,
    }
}

/// The sort after a click on the button of `col`.
pub fn toggle_sort(sort: AppSort, col: AppSortCol) -> (r: AppSort)
    ensures
        r == toggled(sort, col),
{
    match click(direction_of(sort, col), col.default_desc()) {
        Some(desc) => Some((col, desc)),
        None => None,
    }
}

/// The arrow on the button of `col`.
pub fn sort_glyph(sort: AppSort, col: AppSortCol) -> (r: &'static str)
    ensures
        r@ == arrow(direction(sort, col)),
        sort == Some((col, true)) ==> r@ == " ↓"@,
        sort == Some((col, false)) ==> r@ == " ↑"@,
        sort != Some((col, true)) && sort != Some((col, false)) ==> r@ == ""@,
{
    arrow_text(direction_of(sort, col))
}

/// Whatever the list was sorted by, three clicks on a button that was not the
/// sort lead back to the loaded order.
pub proof fn sort_cycles_back(sort: AppSort, col: AppSortCol)
    requires
        direction(sort, col) is None,
    ensures
        toggled(sort, col) == Some((col, col.starts_desc())),
        toggled(toggled(sort, col), col) == Some((col, !col.starts_desc())),
        toggled(toggled(toggled(sort, col), col), col) == None::<(AppSortCol, bool)>,
{
}

/// The value `a` may stand before `b`: where both are known by the direction;
/// what is unknown comes last in both directions.
pub open spec fn missing_last(a: Option<Timestamp>, b: Option<Timestamp>, desc: bool) -> bool {
    match (a, b) {
        (_, None) => true,
        (None, Some(_)) => false,
        (Some(x), Some(y)) => if desc {
            y@ <= x@
        } else {
            x@ <= y@
        },
    }
}

/// The same order, read backwards.
pub open spec fn turned(o: Ordering) -> Ordering {
    match o {
        Ordering::Less => Ordering::Greater,
        Ordering::Equal => Ordering::Equal,
        Ordering::Greater => Ordering::Less,
    }
}

/// How two optional values of an ordered type stand to each other: where both are
/// known by the direction; what is unknown comes last in both directions.
pub open spec fn unknown_last<T: Ord>(a: Option<&T>, b: Option<&T>, desc: bool) -> Ordering {
    match (a, b) {
        (None, None) => Ordering::Equal,
        (None, Some(_)) => Ordering::Greater,
        (Some(_), None) => Ordering::Less,
        (Some(x), Some(y)) => if desc {
            turned(x.cmp_spec(y))
        } else {
            x.cmp_spec(y)
        },
    }
}

/// Orders two optional values, what is unknown last in both directions. Two known
/// values stand as their own `cmp` says, turned round where `desc` asks for it.
pub fn cmp_missing_last<T: Ord>(a: Option<&T>, b: Option<&T>, desc: bool) -> (r: Ordering)
    ensures
        T::obeys_cmp_spec() || a is None || b is None ==> r == unknown_last(a, b, desc),
        a matches Some(x) ==> b matches Some(y) ==> exists|o: Ordering| #[trigger]
            call_ensures(T::cmp, (x, y), o) && r == if desc {
                turned(o)
            } else {
                o
            },
{
    match (a, b) {
        (None, None) => Ordering::Equal,
        (None, Some(_)) => Ordering::Greater,
        (Some(_), None) => Ordering::Less,
        (Some(x), Some(y)) => {
            let o = x.cmp(y);
            if desc {
                match o {
                    Ordering::Less => Ordering::Greater,
                    Ordering::Equal => Ordering::Equal,
                    Ordering::Greater => Ordering::Less,
                }
            } else {
                o
            }
        },
    }
}

/// For every ordered type, and in both directions, an unknown value comes after
/// every known one and ties with another unknown one. Two known values stand as
/// their order says, or turned round.
pub proof fn what_is_unknown_comes_last<T: Ord>(a: Option<&T>, b: Option<&T>, desc: bool)
    ensures
        a is None && b is Some ==> unknown_last(a, b, desc) == Ordering::Greater,
        a is Some && b is None ==> unknown_last(a, b, desc) == Ordering::Less,
        a is None && b is None ==> unknown_last(a, b, desc) == Ordering::Equal,
        a is None || b is None ==> unknown_last(a, b, desc) == turned(unknown_last(b, a, desc)),
        turned(Ordering::Less) == Ordering::Greater,
        turned(Ordering::Equal) == Ordering::Equal,
        turned(Ordering::Greater) == Ordering::Less,
        a matches Some(x) ==> b matches Some(y) ==> unknown_last(a, b, false) == x.cmp_spec(y)
            && unknown_last(a, b, true) == turned(x.cmp_spec(y)),
{
}

/// Where the order of the type is lawful, the values the other way round stand the
/// other way round, and the descending direction is the order of the swapped
/// values.
pub proof fn swapped_values_stand_the_other_way_round<T: Ord>(
    a: Option<&T>,
    b: Option<&T>,
    desc: bool,
)
    requires
        obeys_cmp::<T>(),
    ensures
        unknown_last(a, b, desc) == turned(unknown_last(b, a, desc)),
        a matches Some(x) ==> b matches Some(y) ==> unknown_last(a, b, true) == y.cmp_spec(x),
{
    reveal(obeys_cmp_ord);
    reveal(obeys_cmp_partial_ord);
    reveal(obeys_partial_cmp_spec_properties);
    if let (Some(x), Some(y)) = (a, b) {
        assert(x.partial_cmp_spec(y) == Some(x.cmp_spec(y)));
        assert(y.partial_cmp_spec(x) == Some(y.cmp_spec(x)));
    }
}

/// The instant of an optional point in time.
fn instant_of(t: Option<Timestamp>) -> (r: Option<i128>)
    ensures
        r is Some <==> t is Some,
        r matches Some(n) ==> n == t->0@,
{
    match t {
        Some(t) => Some(t.instant()),
        None => None,
    }
}

/// Whether the value `a` may stand before `b`.
fn may_come_first(a: Option<Timestamp>, b: Option<Timestamp>, desc: bool) -> (r: bool)
    ensures
        r == missing_last(a, b, desc),
{
    let (x, y) = (instant_of(a), instant_of(b));
    match cmp_missing_last(x.as_ref(), y.as_ref(), desc) {
        Ordering::Greater => false,
        _ => true,
    }
}

/// The row `a` may stand before `b` under the sort.
pub open spec fn may_stand_before(
    col: AppSortCol,
    desc: bool,
    a: ApplicationListRow,
    b: ApplicationListRow,
) -> bool {
    match col {
        AppSortCol::Name => if desc {
            text_le(lowercase_of(b.display_name@), lowercase_of(a.display_name@))
        } else {
            text_le(lowercase_of(a.display_name@), lowercase_of(b.display_name@))
        },
        AppSortCol::Expiry => missing_last(
            a.soonest_credential_expiry,
            b.soonest_credential_expiry,
            desc,
        ),
        AppSortCol::Created => missing_last(a.created, b.created, desc),
    }
}

/// The row at `a` comes before the row at `b`. Rows that tie keep the loaded
/// order; by name from Z to A, the whole list is turned round, ties too.
pub open spec fn comes_before(
    items: Seq<ApplicationListRow>,
    col: AppSortCol,
    desc: bool,
    a: usize,
    b: usize,
) -> bool {
    let (x, y) = (items[a as int], items[b as int]);
    may_stand_before(col, desc, x, y) && (may_stand_before(col, desc, y, x) ==> if col is Name
        && desc {
        b < a
    } else {
        a < b
    })
}

/// The rows are in the order of the sort.
pub open spec fn in_order(
    items: Seq<ApplicationListRow>,
    col: AppSortCol,
    desc: bool,
    rows: Seq<usize>,
) -> bool {
    forall|i: int, j: int| #![trigger rows[i], rows[j]]
        0 <= i < j < rows.len() ==> comes_before(items, col, desc, rows[i], rows[j])
}

struct ByDate<'a> {
    items: &'a [ApplicationListRow],
    expiry: bool,
    desc: bool,
}

impl<'a> ByDate<'a> {
    spec fn value(&self, i: usize) -> Option<Timestamp> {
        if self.expiry {
            self.items@[i as int].soonest_credential_expiry
        } else {
            self.items@[i as int].created
        }
    }

    fn get(&self, i: usize) -> (r: Option<Timestamp>)
        requires
            i < self.items@.len(),
        ensures
            r == self.value(i),
    {
        if self.expiry {
            self.items[i].soonest_credential_expiry
        } else {
            self.items[i].created
        }
    }
}

impl<'a> Ranking for ByDate<'a> {
    closed spec fn ranks(&self, i: usize) -> bool {
        i < self.items@.len()
    }

    closed spec fn le(&self, a: usize, b: usize) -> bool {
        missing_last(self.value(a), self.value(b), self.desc)
    }

    proof fn lawful(&self, a: usize, b: usize, c: usize) {
    }

    fn may_precede(&self, a: usize, b: usize) -> (r: bool) {
        may_come_first(self.get(a), self.get(b), self.desc)
    }
}

fn name_keys(items: &[ApplicationListRow]) -> (r: Vec<Vec<char>>)
    ensures
        r@.len() == items@.len(),
        forall|i: int|
            0 <= i < r@.len() ==> (#[trigger] r@[i])@ == lowercase_of(items@[i].display_name@),
{
    let mut out: Vec<Vec<char>> = Vec::new();
    for k in 0..items.len()
        invariant
            out@.len() == k,
            forall|i: int|
                0 <= i < k ==> (#[trigger] out@[i])@ == lowercase_of(items@[i].display_name@),
    {
        let name = lower(items[k].display_name.as_str());
        out.push(characters(name.as_str()));
    }
    out
}

/// The rows in the order of a sort. `rows` are positions in the list, in list
/// order.
pub fn sort_rows(
    items: &[ApplicationListRow],
    rows: &Vec<usize>,
    col: AppSortCol,
    desc: bool,
) -> (r: Vec<usize>)
    requires
        ascending(rows@),
        forall|k: int| 0 <= k < rows@.len() ==> (#[trigger] rows@[k]) < items@.len(),
    ensures
        rearranged(r@, rows@),
        in_order(items@, col, desc, r@),
{
    match col {
        AppSortCol::Name => {
            let order = TextOrder { keys: name_keys(items), desc: false };
            let up = crate::order::sort_rows(&order, rows);
            proof {
                assert forall|i: int, j: int| #![trigger up@[i], up@[j]]
                    0 <= i < j < up@.len() implies order.le(up@[i], up@[j]) && (order.le(
                    up@[j],
                    up@[i],
                ) ==> up@[i] < up@[j]) && up@[i] < items@.len() && up@[j] < items@.len() by {
                    lemma_rearranged_members(up@, rows@, i);
                    lemma_rearranged_members(up@, rows@, j);
                }
                assert(in_order(items@, col, false, up@));
            }
            if desc {
                let down = reversed(&up);
                proof {
                    names_turn_round(items@, up@);
                }
                down
            } else {
                up
            }
        },
        AppSortCol::Expiry => {
            let order = ByDate { items, expiry: true, desc };
            let r = crate::order::sort_rows(&order, rows);
            proof {
                assert forall|i: int, j: int| #![trigger r@[i], r@[j]]
                    0 <= i < j < r@.len() implies comes_before(
                    items@,
                    col,
                    desc,
                    r@[i],
                    r@[j],
                ) by {
                    assert(order.le(r@[i], r@[j]));
                }
            }
            r
        },
        AppSortCol::Created => {
            let order = ByDate { items, expiry: false, desc };
            let r = crate::order::sort_rows(&order, rows);
            proof {
                assert forall|i: int, j: int| #![trigger r@[i], r@[j]]
                    0 <= i < j < r@.len() implies comes_before(
                    items@,
                    col,
                    desc,
                    r@[i],
                    r@[j],
                ) by {
                    assert(order.le(r@[i], r@[j]));
                }
            }
            r
        },
    }
}

/// A sort leaves no choice: two orders of the same rows under the same sort are
/// the same.
pub proof fn a_sort_leaves_no_choice(
    items: Seq<ApplicationListRow>,
    col: AppSortCol,
    desc: bool,
    s: Seq<usize>,
    t: Seq<usize>,
)
    requires
        rearranged(s, t),
        in_order(items, col, desc, s),
        in_order(items, col, desc, t),
    ensures
        s == t,
{
    let precedes = |a: usize, b: usize| comes_before(items, col, desc, a, b);
    order_is_unique(precedes, s, t);
}

/// By name, one direction is the other turned round, ties too.
pub proof fn names_turn_round(items: Seq<ApplicationListRow>, rows: Seq<usize>)
    requires
        in_order(items, AppSortCol::Name, false, rows),
    ensures
        in_order(items, AppSortCol::Name, true, rows.reverse()),
{
    let n = rows.len();
    let down = rows.reverse();
    assert forall|i: int, j: int| #![trigger down[i], down[j]] 0 <= i < j
        < down.len() implies comes_before(items, AppSortCol::Name, true, down[i], down[j]) by {
        assert(comes_before(items, AppSortCol::Name, false, rows[n - 1 - j], rows[n - 1 - i]));
    }
}

/// In both directions a row without a value stands below every row that has one.
pub proof fn a_missing_value_sorts_last(
    items: Seq<ApplicationListRow>,
    desc: bool,
    rows: Seq<usize>,
    i: int,
    j: int,
)
    requires
        0 <= i < rows.len(),
        0 <= j < rows.len(),
        items[rows[i] as int].soonest_credential_expiry is Some,
        items[rows[j] as int].soonest_credential_expiry is None,
        in_order(items, AppSortCol::Expiry, desc, rows),
    ensures
        i < j,
{
    if j < i {
        assert(comes_before(items, AppSortCol::Expiry, desc, rows[j], rows[i]));
    }
}

/// The same for the date of creation.
pub proof fn an_unknown_creation_sorts_last(
    items: Seq<ApplicationListRow>,
    desc: bool,
    rows: Seq<usize>,
    i: int,
    j: int,
)
    requires
        0 <= i < rows.len(),
        0 <= j < rows.len(),
        items[rows[i] as int].created is Some,
        items[rows[j] as int].created is None,
        in_order(items, AppSortCol::Created, desc, rows),
    ensures
        i < j,
{
    if j < i {
        assert(comes_before(items, AppSortCol::Created, desc, rows[j], rows[i]));
    }
}

/// The key of the facet that a row is in.
pub open spec fn facet_key(s: ListCredentialStatus) -> Seq<char> {
    match s {
        ListCredentialStatus::Active => "active"@,
        ListCredentialStatus::Expiring => "expiring"@,
        ListCredentialStatus::Expired => "expired"@,
        ListCredentialStatus::NoCredentials => "none"@,
    }
}

/// The facet that a key names. A key that names none filters nothing.
pub open spec fn facet_of(key: Seq<char>) -> Option<ListCredentialStatus> {
    if key == "active"@ {
        Some(ListCredentialStatus::Active)
    } else if key == "expiring"@ {
        Some(ListCredentialStatus::Expiring)
    } else if key == "expired"@ {
        Some(ListCredentialStatus::Expired)
    } else if key == "none"@ {
        Some(ListCredentialStatus::NoCredentials)
    } else {
        None
    }
}

/// The key of the facet that a row is in.
pub fn as_facet(s: ListCredentialStatus) -> (r: &'static str)
    ensures
        r@ == facet_key(s),
        s is Active ==> r@ == "active"@,
        s is Expiring ==> r@ == "expiring"@,
        s is Expired ==> r@ == "expired"@,
        s is NoCredentials ==> r@ == "none"@,
{
    match s {
        ListCredentialStatus::Active => "active",
        ListCredentialStatus::Expiring => "expiring",
        ListCredentialStatus::Expired => "expired",
        ListCredentialStatus::NoCredentials => "none",
    }
}

fn facet(key: &str) -> (r: Option<ListCredentialStatus>)
    ensures
        r == facet_of(key@),
{
    if same(key, "active") {
        Some(ListCredentialStatus::Active)
    } else if same(key, "expiring") {
        Some(ListCredentialStatus::Expiring)
    } else if same(key, "expired") {
        Some(ListCredentialStatus::Expired)
    } else if same(key, "none") {
        Some(ListCredentialStatus::NoCredentials)
    } else {
        None
    }
}

/// Each facet has a key of its own, and `"any"` is none of them.
pub proof fn facet_keys_are_distinct(s: ListCredentialStatus)
    ensures
        facet_of(facet_key(s)) == Some(s),
        facet_of("any"@) is None,
{
    reveal_strlit("active");
    reveal_strlit("expiring");
    reveal_strlit("expired");
    reveal_strlit("none");
    reveal_strlit("any");
    assert("active"@.len() == 6);
    assert("expiring"@.len() == 8);
    assert("expired"@.len() == 7);
    assert("none"@.len() == 4);
    assert("any"@.len() == 3);
}

/// The row passes search and creation range. By name or by application id.
pub open spec fn in_base(
    row: ApplicationListRow,
    search: Seq<char>,
    after: Option<i64>,
    before: Option<i64>,
) -> bool {
    &&& hit(row.display_name@, search) || hit(row.app_id@, search)
    &&& in_range(row.created, after, before)
}

/// The row passes search and range, and is in the facet, if there is one.
pub open spec fn passes(
    row: ApplicationListRow,
    search: Seq<char>,
    f: Option<ListCredentialStatus>,
    after: Option<i64>,
    before: Option<i64>,
) -> bool {
    in_base(row, search, after, before) && (f matches Some(x) ==> row.credential_status == x)
}

struct ShownTest {
    needle: Option<String>,
    facet: Option<ListCredentialStatus>,
    after: Option<i64>,
    before: Option<i64>,
}

impl RowTest<ApplicationListRow> for ShownTest {
    closed spec fn holds(&self, row: ApplicationListRow) -> bool {
        &&& found(row.display_name@, self.needle) || found(row.app_id@, self.needle)
        &&& in_range(row.created, self.after, self.before)
        &&& self.facet matches Some(f) ==> row.credential_status == f
    }

    fn test(&self, row: &ApplicationListRow) -> (r: bool) {
        (is_hit(row.display_name.as_str(), &self.needle) || is_hit(
            row.app_id.as_str(),
            &self.needle,
        )) && created_in_range(row.created, self.after, self.before) && match self.facet {
            Some(f) => row.credential_status == f,
            None => true,
        }
    }
}

/// The loaded list, filtered: how many rows pass search and range, how many of
/// them are in each facet, and the rows that are shown.
#[derive(Debug)]
pub struct LoadedApps {
    pub total: usize,
    pub base_total: usize,
    pub active: usize,
    pub expiring: usize,
    pub expired: usize,
    pub none: usize,
    pub shown: Vec<usize>,
    /// The rows that are shown, in the order in which they are drawn and
    /// exported.
    pub sorted: Vec<usize>,
}

impl LoadedApps {
    /// The list backs these filters.
    pub open spec fn describes(
        self,
        items: Seq<ApplicationListRow>,
        list: ApplicationList,
        search: Seq<char>,
    ) -> bool {
        let (after, before) = (list.created_after, list.created_before);
        let rows_in = |f: Option<ListCredentialStatus>|
            tally(items, |r: ApplicationListRow| passes(r, search, f, after, before));
        &&& self.total == items.len()
        &&& self.base_total == rows_in(None)
        &&& self.active == rows_in(Some(ListCredentialStatus::Active))
        &&& self.expiring == rows_in(Some(ListCredentialStatus::Expiring))
        &&& self.expired == rows_in(Some(ListCredentialStatus::Expired))
        &&& self.none == rows_in(Some(ListCredentialStatus::NoCredentials))
        &&& selects(
            items,
            |r: ApplicationListRow| passes(r, search, facet_of(list.cred_filter@), after, before),
            self.shown@,
        )
        &&& match list.sort {
            None => self.sorted@ == self.shown@,
            Some((col, desc)) => rearranged(self.sorted@, self.shown@) && in_order(
                items,
                col,
                desc,
                self.sorted@,
            ),
        }
    }
}

/// The state of the view. The search comes from the session.
#[derive(Debug)]
pub struct ApplicationList {
    pub cred_filter: String,
    /// The ends of the range of creation dates, in days from the first of 1970.
    pub created_after: Option<i64>,
    pub created_before: Option<i64>,
    pub sort: AppSort,
    pub filters_open: bool,
    pub refreshing: bool,
}

/// The page of the app registrations is its list.
pub type ApplicationsView = ApplicationList;

fn copy_rows(rows: &Vec<usize>) -> (r: Vec<usize>)
    ensures
        r@ == rows@,
{
    let mut out: Vec<usize> = Vec::new();
    for k in 0..rows.len()
        invariant
            out@ == rows@.take(k as int),
    {
        out.push(rows[k]);
    }
    proof {
        assert(rows@.take(rows@.len() as int) =~= rows@);
    }
    out
}

impl ApplicationList {
    /// No filter, no sort, the drawer closed.
    pub fn new() -> (r: ApplicationList)
        ensures
            r.cred_filter@ == "any"@,
            r.created_after is None,
            r.created_before is None,
            r.sort is None,
            !r.filters_open,
            !r.refreshing,
    {
        ApplicationList {
            cred_filter: "any".to_owned(),
            created_after: None,
            created_before: None,
            sort: None,
            filters_open: false,
            refreshing: false,
        }
    }

    /// How many filters are set, the search not counted.
    pub fn active_filters(&self) -> (r: usize)
        ensures
            r == filters_set(
                self.cred_filter@ != "any"@,
                self.created_after,
                self.created_before,
            ),
    {
        active_filters(
            !same(self.cred_filter.as_str(), "any"),
            self.created_after,
            self.created_before,
        )
    }

    /// "Refresh". Returns whether to load again.
    pub fn on_refresh(&mut self, tenant: &Option<String>) -> (r: bool)
        ensures
            r == tenant is Some,
            *final(self) == (ApplicationList {
                refreshing: old(self).refreshing || tenant is Some,
                ..*old(self)
            }),
    {
        if tenant.is_none() {
            return false;
        }
        self.refreshing = true;
        true
    }

    /// A load has ended, however it did.
    pub fn load_ended(&mut self)
        ensures
            *final(self) == (ApplicationList { refreshing: false, ..*old(self) }),
    {
        self.refreshing = false;
    }

    /// A click on the button of a column.
    pub fn toggle_sort(&mut self, col: AppSortCol)
        ensures
            *final(self) == (ApplicationList { sort: toggled(old(self).sort, col), ..*old(self) }),
    {
        self.sort = self::toggle_sort(self.sort, col);
    }

    fn count_facet(
        &self,
        items: &[ApplicationListRow],
        search: &str,
        f: Option<ListCredentialStatus>,
    ) -> (r: usize)
        ensures
            r == tally(
                items@,
                |r: ApplicationListRow|
                    passes(r, search@, f, self.created_after, self.created_before),
            ),
    {
        let t = ShownTest {
            needle: needle(search),
            facet: f,
            after: self.created_after,
            before: self.created_before,
        };
        let r = count_rows(items, &t);
        proof {
            assert((|row: ApplicationListRow| t.holds(row)) =~= (|r: ApplicationListRow|
                passes(r, search@, f, self.created_after, self.created_before)));
        }
        r
    }

    /// The list as it is shown: filtered in memory, then sorted.
    pub fn loaded(&self, items: &[ApplicationListRow], search: &str) -> (r: LoadedApps)
        ensures
            r.describes(items@, *self, search@),
    {
        let t = ShownTest {
            needle: needle(search),
            facet: facet(self.cred_filter.as_str()),
            after: self.created_after,
            before: self.created_before,
        };
        let shown = positions(items, &t);
        proof {
            assert((|row: ApplicationListRow| t.holds(row)) =~= (|r: ApplicationListRow|
                passes(
                    r,
                    search@,
                    facet_of(self.cred_filter@),
                    self.created_after,
                    self.created_before,
                )));
        }
        let sorted = match self.sort {
            None => copy_rows(&shown),
            Some((col, desc)) => sort_rows(items, &shown, col, desc),
        };
        let base_total = self.count_facet(items, search, None);
        let active = self.count_facet(items, search, Some(ListCredentialStatus::Active));
        let expiring = self.count_facet(items, search, Some(ListCredentialStatus::Expiring));
        let expired = self.count_facet(items, search, Some(ListCredentialStatus::Expired));
        let none = self.count_facet(items, search, Some(ListCredentialStatus::NoCredentials));
        LoadedApps {
            total: items.len(),
            base_total,
            active,
            expiring,
            expired,
            none,
            shown,
            sorted,
        }
    }
}

proof fn lemma_split(
    items: Seq<ApplicationListRow>,
    search: Seq<char>,
    after: Option<i64>,
    before: Option<i64>,
)
    ensures
        ({
            let rows_in = |f: Option<ListCredentialStatus>|
                tally(items, |r: ApplicationListRow| passes(r, search, f, after, before));
            rows_in(None) == rows_in(Some(ListCredentialStatus::Active)) + rows_in(
                Some(ListCredentialStatus::Expiring),
            ) + rows_in(Some(ListCredentialStatus::Expired)) + rows_in(
                Some(ListCredentialStatus::NoCredentials),
            )
        }),
    decreases items.len(),
{
    if items.len() > 0 {
        lemma_split(items.drop_last(), search, after, before);
    }
}

/// The chips partition what passes search and range: every such row is counted
/// by exactly one of them.
pub proof fn chips_partition_the_list(
    items: Seq<ApplicationListRow>,
    list: ApplicationList,
    search: Seq<char>,
    l: LoadedApps,
)
    requires
        l.describes(items, list, search),
    ensures
        l.base_total == l.active + l.expiring + l.expired + l.none,
{
    lemma_split(items, search, list.created_after, list.created_before);
}

/// A chip's count is the number of rows that clicking it shows.
pub proof fn a_chip_keeps_its_word(
    items: Seq<ApplicationListRow>,
    list: ApplicationList,
    search: Seq<char>,
    l: LoadedApps,
    key: String,
    after_click: LoadedApps,
)
    requires
        items.len() <= usize::MAX,
        l.describes(items, list, search),
        after_click.describes(items, ApplicationList { cred_filter: key, ..list }, search),
    ensures
        after_click.shown@.len() == match facet_of(key@) {
            None => l.base_total,
            Some(ListCredentialStatus::Active) => l.active,
            Some(ListCredentialStatus::Expiring) => l.expiring,
            Some(ListCredentialStatus::Expired) => l.expired,
            Some(ListCredentialStatus::NoCredentials) => l.none,
        },
{
    let p = |r: ApplicationListRow|
        passes(r, search, facet_of(key@), list.created_after, list.created_before);
    selection_size(items, p, after_click.shown@);
}

/// Sorting changes the order alone: nothing that is shown is lost or added.
pub proof fn sorting_shows_the_same_rows(
    items: Seq<ApplicationListRow>,
    list: ApplicationList,
    search: Seq<char>,
    l: LoadedApps,
    i: int,
)
    requires
        l.describes(items, list, search),
    ensures
        l.sorted@.to_multiset() == l.shown@.to_multiset(),
        0 <= i < l.sorted@.len() ==> l.shown@.contains(l.sorted@[i]),
{
    if 0 <= i < l.sorted@.len() {
        match list.sort {
            None => {},
            Some(_) => lemma_rearranged_members(l.sorted@, l.shown@, i),
        }
    }
}

/// The ids of the shown rows, in list order.
pub fn visible_ids(items: &[ApplicationListRow], shown: &Vec<usize>) -> (r: Vec<String>)
    requires
        forall|k: int| 0 <= k < shown@.len() ==> (#[trigger] shown@[k]) < items@.len(),
    ensures
        r@.len() == shown@.len(),
        forall|k: int| 0 <= k < r@.len() ==> #[trigger] r@[k] == items@[shown@[k] as int].id,
{
    let mut out: Vec<String> = Vec::new();
    for k in 0..shown.len()
        invariant
            out@.len() == k,
            forall|j: int| 0 <= j < shown@.len() ==> (#[trigger] shown@[j]) < items@.len(),
            forall|j: int| 0 <= j < k ==> #[trigger] out@[j] == items@[shown@[j] as int].id,
    {
        let i: usize = shown[k];
        out.push(items[i].id.clone());
    }
    out
}

/// `k` is the last row with the id.
pub open spec fn last_with_id(items: Seq<ApplicationListRow>, id: Seq<char>, k: int) -> bool {
    &&& 0 <= k < items.len()
    &&& items[k].id@ == id
    &&& forall|j: int| k < j < items.len() ==> (#[trigger] items[j]).id@ != id
}

/// The name by which a failure speaks of an app; nothing where no row has the
/// id.
pub fn app_name(items: &[ApplicationListRow], id: &str) -> (r: Option<String>)
    ensures
        r is Some <==> exists|k: int| #[trigger] last_with_id(items@, id@, k),
        r matches Some(n) ==> exists|k: int| #[trigger]
            last_with_id(items@, id@, k) && n == items@[k].display_name,
        r is None <==> forall|k: int| 0 <= k < items@.len() ==> (#[trigger] items@[k]).id@ != id@,
        r matches Some(n) ==> exists|k: int|
            0 <= k < items@.len() && (#[trigger] items@[k]).id@ == id@ && n
                == items@[k].display_name && forall|j: int|
                k < j < items@.len() ==> (#[trigger] items@[j]).id@ != id@,
{
    let mut i: usize = items.len();
    while i > 0
        invariant
            i <= items@.len(),
            forall|j: int| i <= j < items@.len() ==> (#[trigger] items@[j]).id@ != id@,
        decreases i,
    {
        i -= 1;
        if same(items[i].id.as_str(), id) {
            assert(last_with_id(items@, id@, i as int));
            return Some(items[i].display_name.clone());
        }
    }
    None
}

/// The notice that the load stopped at the limit, where it did.
pub fn cap_notice(total: usize) -> (r: Option<String>)
    ensures
        r is Some <==> total >= APPS_HARD_CAP,
        r matches Some(t) ==> t@ == "Loaded the first "@ + decimal(APPS_HARD_CAP as nat)
            + " apps — search and filters apply within this set."@,
        r is Some <==> total >= 10_000,
        r matches Some(t) ==> t@ == "Loaded the first "@ + decimal(10_000)
            + " apps — search and filters apply within this set."@,
{
    if total < APPS_HARD_CAP {
        return None;
    }
    let mut s = "Loaded the first ".to_owned();
    s.append(count(APPS_HARD_CAP).as_str());
    s.append(" apps — search and filters apply within this set.");
    Some(s)
}

/// The actions that the selection offers.
pub fn bulk_actions() -> (r: Vec<BulkAction>)
    ensures
        r@ == seq![BulkAction::Grant, BulkAction::RemoveExpired, BulkAction::Delete],
{
    let r = vec![BulkAction::Grant, BulkAction::RemoveExpired, BulkAction::Delete];
    proof {
        assert(r@ =~= seq![BulkAction::Grant, BulkAction::RemoveExpired, BulkAction::Delete]);
    }
    r
}

/// What a row says of its credentials.
#[derive(Debug)]
pub struct CredentialMeta {
    pub label: &'static str,
    pub tone: &'static str,
    /// How long is left, or how long ago it was; nothing where no credential
    /// ends.
    pub expiry: Option<String>,
    /// The date itself.
    pub exact: Option<String>,
}

/// The words for a state.
pub open spec fn status_label(s: ListCredentialStatus) -> Seq<char> {
    match s {
        ListCredentialStatus::Active => "Active"@,
        ListCredentialStatus::Expiring => "Expiring"@,
        ListCredentialStatus::Expired => "Expired"@,
        ListCredentialStatus::NoCredentials => "No creds"@,
    }
}

/// The colour of a state.
pub open spec fn status_tone(s: ListCredentialStatus) -> Seq<char> {
    match s {
        ListCredentialStatus::Active => "ok"@,
        ListCredentialStatus::Expiring => "warning"@,
        ListCredentialStatus::Expired => "danger"@,
        ListCredentialStatus::NoCredentials => "unknown"@,
    }
}

/// How long is left until `end`, or how long ago it was.
pub open spec fn expiry_phrase(end: int, now: int) -> Seq<char> {
    if end <= now {
        relative_phrase(now - end)
    } else {
        signed_decimal(days_from(now, end)) + "d left"@
    }
}

/// What a row says of its credentials.
pub fn credential_meta(
    status: ListCredentialStatus,
    soonest: Option<Timestamp>,
    now: Timestamp,
) -> (r: CredentialMeta)
    ensures
        r.label@ == status_label(status),
        r.tone@ == status_tone(status),
        status is Active ==> r.label@ == "Active"@ && r.tone@ == "ok"@,
        status is Expiring ==> r.label@ == "Expiring"@ && r.tone@ == "warning"@,
        status is Expired ==> r.label@ == "Expired"@ && r.tone@ == "danger"@,
        status is NoCredentials ==> r.label@ == "No creds"@ && r.tone@ == "unknown"@,
        r.expiry is Some <==> soonest is Some,
        r.exact is Some <==> soonest is Some,
        soonest matches Some(end) ==> is_text(r.expiry, expiry_phrase(end@, now@)) && is_text(
            r.exact,
            calendar_date(end@),
        ),
{
    let (label, tone) = match status {
        ListCredentialStatus::Active => ("Active", "ok"),
        ListCredentialStatus::Expiring => ("Expiring", "warning"),
        ListCredentialStatus::Expired => ("Expired", "danger"),
        ListCredentialStatus::NoCredentials => ("No creds", "unknown"),
    };
    match soonest {
        None => CredentialMeta { label, tone, expiry: None, exact: None },
        Some(end) => {
            let phrase = if end.not_after(now) {
                relative_time(now, end)
            } else {
                let mut s = signed_number(days_until(now, end));
                s.append("d left");
                s
            };
            CredentialMeta { label, tone, expiry: Some(phrase), exact: Some(date_text(end)) }
        },
    }
}

/// What a row of the list shows.
#[derive(Debug)]
pub struct AppRow {
    pub name: String,
    /// The name of the check box, for those who hear it.
    pub check_label: String,
    /// The name of the row, for those who hear it.
    pub row_label: String,
    pub meta: CredentialMeta,
}

/// The name of a row's check box.
pub open spec fn check_line(row: ApplicationListRow) -> Seq<char> {
    "Select "@ + row_name(row.display_name, row.app_id)@ + " ("@ + row.app_id@
        + ") for bulk actions"@
}

/// The name of a row.
pub open spec fn row_line(row: ApplicationListRow, now: Timestamp) -> Seq<char> {
    let head = row_name(row.display_name, row.app_id)@ + " ("@ + row.app_id@ + ") — "@
        + status_label(row.credential_status);
    match row.soonest_credential_expiry {
        Some(end) => head + ", "@ + expiry_phrase(end@, now@),
        None => head,
    }
}

/// What a row of the list shows.
pub fn view_row(row: &ApplicationListRow, now: Timestamp) -> (r: AppRow)
    ensures
        r.name == row_name(row.display_name, row.app_id),
        r.check_label@ == check_line(*row),
        r.check_label@ == "Select "@ + r.name@ + " ("@ + row.app_id@ + ") for bulk actions"@,
        r.row_label@ == row_line(*row, now),
        row.soonest_credential_expiry is None ==> r.row_label@ == r.name@ + " ("@ + row.app_id@
            + ") — "@ + r.meta.label@,
        row.soonest_credential_expiry is Some ==> r.row_label@ == r.name@ + " ("@ + row.app_id@
            + ") — "@ + r.meta.label@ + ", "@ + r.meta.expiry->0@,
        r.meta.label@ == status_label(row.credential_status),
        r.meta.tone@ == status_tone(row.credential_status),
        r.meta.expiry is Some <==> row.soonest_credential_expiry is Some,
        r.meta.exact is Some <==> row.soonest_credential_expiry is Some,
        row.soonest_credential_expiry matches Some(end) ==> is_text(
            r.meta.expiry,
            expiry_phrase(end@, now@),
        ) && is_text(r.meta.exact, calendar_date(end@)),
{
    let name = name_or_id(&row.display_name, &row.app_id);
    let meta = credential_meta(row.credential_status, row.soonest_credential_expiry, now);
    let mut check_label = "Select ".to_owned();
    check_label.append(name.as_str());
    check_label.append(" (");
    check_label.append(row.app_id.as_str());
    check_label.append(") for bulk actions");
    let mut row_label = name.clone();
    row_label.append(" (");
    row_label.append(row.app_id.as_str());
    row_label.append(") — ");
    row_label.append(meta.label);
    match &meta.expiry {
        Some(e) => {
            row_label.append(", ");
            row_label.append(e.as_str());
        },
        None => {},
    }
    AppRow { name, check_label, row_label, meta }
}

/// The words in place of an empty list: title and text. Where the tenant has no
/// app at all, making one is offered.
pub fn empty_words(e: EmptyList) -> (r: (&'static str, &'static str))
    ensures
        (r.0@, r.1@) == match e {
            EmptyList::NoneYet => (
                "No app registrations yet"@,
                "Create your first app registration to get started."@,
            ),
            EmptyList::NoMatch => (
                "No matching apps"@,
                "Adjust your search or filters to widen the result set."@,
            ),
        },
{
    match e {
        EmptyList::NoneYet => (
            "No app registrations yet",
            "Create your first app registration to get started.",
        ),
        EmptyList::NoMatch => (
            "No matching apps",
            "Adjust your search or filters to widen the result set.",
        ),
    }
}

proof fn lemma_facet_keys()
    ensures
        "active"@ != "expiring"@,
        "active"@ != "expired"@,
        "active"@ != "none"@,
        "active"@ != "any"@,
        "expiring"@ != "expired"@,
        "expiring"@ != "none"@,
        "expiring"@ != "any"@,
        "expired"@ != "none"@,
        "expired"@ != "any"@,
        "none"@ != "any"@,
{
    reveal_strlit("active");
    reveal_strlit("expiring");
    reveal_strlit("expired");
    reveal_strlit("none");
    reveal_strlit("any");
    assert("active"@.len() == 6);
    assert("expiring"@.len() == 8);
    assert("expired"@.len() == 7);
    assert("none"@.len() == 4);
    assert("any"@.len() == 3);
}

/// An app is shown exactly if its name or its application id holds the words
/// searched for, it was created within the range, the day of either end included,
/// and its credentials are in the state that the chosen chip names; every other key
/// lets all of them pass.
pub proof fn a_row_is_shown_by_its_text_its_day_and_its_chip(
    items: Seq<ApplicationListRow>,
    list: ApplicationList,
    search: Seq<char>,
    l: LoadedApps,
    i: usize,
)
    requires
        l.describes(items, list, search),
        i < items.len(),
    ensures
        l.shown@.contains(i) <==> {
            let row = items[i as int];
            let key = list.cred_filter@;
            &&& (forall|k: int| 0 <= k < search.len() ==> white(#[trigger] search[k]))
                || (exists|front: Seq<char>, back: Seq<char>|
                lowercase_of(row.display_name@) == #[trigger] (front + lowercase_of(trimmed(search))
                    + back)) || exists|front: Seq<char>, back: Seq<char>|
                lowercase_of(row.app_id@) == #[trigger] (front + lowercase_of(trimmed(search))
                    + back)
            &&& list.created_after matches Some(d) ==> row.created matches Some(t) && d
                * 86_400_000_000_000 <= t@
            &&& list.created_before matches Some(d) ==> row.created matches Some(t) && t@ < (d + 1)
                * 86_400_000_000_000
            &&& key == "active"@ ==> row.credential_status is Active
            &&& key == "expiring"@ ==> row.credential_status is Expiring
            &&& key == "expired"@ ==> row.credential_status is Expired
            &&& key == "none"@ ==> row.credential_status is NoCredentials
        },
{
    let row = items[i as int];
    both_ends_of_the_range_are_in(row.created, list.created_after, list.created_before);
    a_search_finds_its_words(row.display_name@, search);
    a_search_finds_its_words(row.app_id@, search);
    lemma_facet_keys();
    let p = |r: ApplicationListRow|
        passes(
            r,
            search,
            facet_of(list.cred_filter@),
            list.created_after,
            list.created_before,
        );
    a_selection_is_exact(items, p, l.shown@, i, 0, 0);
}

/// Each chip counts the rows that its own key shows.
pub proof fn each_chip_counts_its_own_key(
    items: Seq<ApplicationListRow>,
    list: ApplicationList,
    search: Seq<char>,
    l: LoadedApps,
    key: String,
    after_click: LoadedApps,
)
    requires
        items.len() <= usize::MAX,
        l.describes(items, list, search),
        after_click.describes(items, ApplicationList { cred_filter: key, ..list }, search),
    ensures
        l.total == items.len(),
        key@ == "any"@ ==> after_click.shown@.len() == l.base_total,
        key@ == "active"@ ==> after_click.shown@.len() == l.active,
        key@ == "expiring"@ ==> after_click.shown@.len() == l.expiring,
        key@ == "expired"@ ==> after_click.shown@.len() == l.expired,
        key@ == "none"@ ==> after_click.shown@.len() == l.none,
{
    lemma_facet_keys();
    a_chip_keeps_its_word(items, list, search, l, key, after_click);
}

/// The list as it is drawn stands in the order that its sort asks for; without one,
/// in the order of the load.
pub proof fn the_list_stands_in_the_order_asked_for(
    items: Seq<ApplicationListRow>,
    list: ApplicationList,
    search: Seq<char>,
    l: LoadedApps,
    col: AppSortCol,
    desc: bool,
)
    requires
        l.describes(items, list, search),
    ensures
        list.sort is None ==> l.sorted@ == l.shown@,
        list.sort == Some((col, desc)) ==> in_order(items, col, desc, l.sorted@),
{
}

/// By name, the first character in which two lower-case names differ decides, and a
/// name stands before the longer ones that it opens; the other way round where the
/// sort descends. Of two rows with one name the one loaded first stands first, or
/// last where the sort descends.
pub proof fn names_stand_alphabetically(
    items: Seq<ApplicationListRow>,
    desc: bool,
    rows: Seq<usize>,
    i: int,
    j: int,
    k: int,
)
    requires
        in_order(items, AppSortCol::Name, desc, rows),
        0 <= i < j < rows.len(),
    ensures
        ({
            let a = lowercase_of(items[rows[i] as int].display_name@);
            let b = lowercase_of(items[rows[j] as int].display_name@);
            &&& 0 <= k < a.len() && k < b.len() && a.take(k) == b.take(k) && a[k] != b[k]
                ==> if desc {
                (a[k] as int) > (b[k] as int)
            } else {
                (a[k] as int) < (b[k] as int)
            }
            &&& a.is_prefix_of(b) && a.len() < b.len() ==> !desc
            &&& b.is_prefix_of(a) && b.len() < a.len() ==> desc
            &&& a == b ==> if desc {
                rows[j] < rows[i]
            } else {
                rows[i] < rows[j]
            }
        }),
{
    let a = lowercase_of(items[rows[i] as int].display_name@);
    let b = lowercase_of(items[rows[j] as int].display_name@);
    assert(comes_before(items, AppSortCol::Name, desc, rows[i], rows[j]));
    if 0 <= k < a.len() && k < b.len() && a.take(k) == b.take(k) && a[k] != b[k] {
        assert forall|n: int| 0 <= n < k implies a[n] == b[n] by {
            assert(a.take(k)[n] == b.take(k)[n]);
        }
        if (a[k] as int) < (b[k] as int) {
            the_first_difference_decides(a, b, k);
        } else {
            the_first_difference_decides(b, a, k);
        }
    }
    if a.is_prefix_of(b) {
        an_opening_comes_first(a, b);
    }
    if b.is_prefix_of(a) {
        an_opening_comes_first(b, a);
    }
}

/// By date, the earlier one stands first, or the later one where the sort descends;
/// what is unknown stands last either way, and rows of one date keep the order of
/// the load.
pub proof fn dates_stand_in_order(
    items: Seq<ApplicationListRow>,
    desc: bool,
    rows: Seq<usize>,
    i: int,
    j: int,
)
    requires
        0 <= i < j < rows.len(),
    ensures
        in_order(items, AppSortCol::Expiry, desc, rows) ==> {
            let a = items[rows[i] as int].soonest_credential_expiry;
            let b = items[rows[j] as int].soonest_credential_expiry;
            &&& a is None ==> b is None
            &&& a is Some && b is Some && !desc ==> a->0@ <= b->0@
            &&& a is Some && b is Some && desc ==> a->0@ >= b->0@
            &&& a is Some && b is Some && a->0@ == b->0@ ==> rows[i] < rows[j]
            &&& a is None && b is None ==> rows[i] < rows[j]
        },
        in_order(items, AppSortCol::Created, desc, rows) ==> {
            let a = items[rows[i] as int].created;
            let b = items[rows[j] as int].created;
            &&& a is None ==> b is None
            &&& a is Some && b is Some && !desc ==> a->0@ <= b->0@
            &&& a is Some && b is Some && desc ==> a->0@ >= b->0@
            &&& a is Some && b is Some && a->0@ == b->0@ ==> rows[i] < rows[j]
            &&& a is None && b is None ==> rows[i] < rows[j]
        },
{
    if in_order(items, AppSortCol::Expiry, desc, rows) {
        assert(comes_before(items, AppSortCol::Expiry, desc, rows[i], rows[j]));
    }
    if in_order(items, AppSortCol::Created, desc, rows) {
        assert(comes_before(items, AppSortCol::Created, desc, rows[i], rows[j]));
    }
}

/// The first click on a column sorts it, whatever the list was sorted by: names and
/// expiry upwards, creation downwards. The second click turns it round, the third
/// takes the sort away.
pub proof fn a_click_starts_turns_and_ends_a_sort(sort: AppSort, col: AppSortCol)
    ensures
        sort != Some((col, true)) && sort != Some((col, false)) ==> toggled(sort, col) == Some(
            (col, col is Created),
        ),
        toggled(Some((col, col is Created)), col) == Some((col, !(col is Created))),
        toggled(Some((col, !(col is Created))), col) == None::<(AppSortCol, bool)>,
{
}

/// What is left of a credential is told in whole days, and what is past as a time
/// ago.
pub proof fn an_expiry_is_told_from_its_side(end: int, now: int)
    ensures
        end <= now ==> expiry_phrase(end, now) == relative_phrase(now - end),
        end > now ==> expiry_phrase(end, now) == decimal(
            ((end - now) / 86_400_000_000_000) as nat,
        ) + "d left"@,
{
}

} // verus!
