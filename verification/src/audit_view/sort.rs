//! The order of the audit table.

use crate::audit::AuditItem;
use crate::order::{ascending, rearranged, sort_rows, Ranking};
use crate::sorting::{arrow, arrow_text, click, clicked, text_precedes, TextOrder};
use crate::text::{
    an_opening_comes_first, characters, lower, lowercase_of, the_first_difference_decides,
};
use crate::time::Timestamp;
use vstd::prelude::*;

verus! {

/// A column by which the table can be sorted. Unsorted, the table keeps the
/// order in which the run ranked its items.
#[derive(Clone, Copy, Debug, PartialEq, Eq, Structural)]
pub enum SortCol {
    Name,
    Score,
    LastSignIn,
}

/// The column and the direction of a sort, if there is one.
pub type Sort = Option<(SortCol, bool)>;

impl SortCol {
    /// The direction of the first click: names from A to Z, the highest score
    /// and the latest sign-in first.
    pub open spec fn starts_desc(self) -> bool {
        !(self is Name)
    }

    /// The direction of the first click.
    pub fn default_desc(self) -> (r: bool)
        ensures
            r == self.starts_desc(),
            r == !(self is Name),
    {
        !matches!(self, SortCol::Name)
    }
}

/// The direction in which `col` is sorted, if it is the column of the sort.
pub open spec fn direction(sort: Sort, col: SortCol) -> Option<bool> {
    match sort {
        Some((c, desc)) => if c == col {
            Some(desc)
        } else {
            None
        },
        None => None,
    }
}

/// The direction in which `col` is sorted, if it is the column of the sort.
fn direction_of(sort: Sort, col: SortCol) -> (r: Option<bool>)
    ensures
        r == direction(sort, col),
{
    match sort {
        Some((c, desc)) => {
            if c == col {
                Some(desc)
            } else {
                None
            }
        },
        None => None,
    }
}

/// The sort after a click on the heading of `col`.
pub open spec fn toggled(sort: Sort, col: SortCol) -> Sort {
    match clicked(direction(sort, col), col.starts_desc()) {
        Some(desc) => Some((col, desc)),
        None => None,
    }
}

/// The sort after a click on the heading of `col`.
pub fn toggle_sort(sort: Sort, col: SortCol) -> (r: Sort)
    ensures
        r == toggled(sort, col),
{
    match click(direction_of(sort, col), col.default_desc()) {
        Some(desc) => Some((col, desc)),
        None => None,
    }
}

/// Whatever the table was sorted by, three clicks on a heading that was not
/// the sort lead back to the original order.
pub proof fn sort_cycles_back(sort: Sort, col: SortCol)
    requires
        direction(sort, col) is None,
    ensures
        toggled(sort, col) == Some((col, col.starts_desc())),
        toggled(toggled(sort, col), col) == Some((col, !col.starts_desc())),
        toggled(toggled(toggled(sort, col), col), col) == None::<(SortCol, bool)>,
{
}

/// The arrow beside the heading of `col`.
pub fn sort_glyph(sort: Sort, col: SortCol) -> (r: &'static str)
    ensures
        r@ == arrow(direction(sort, col)),
        sort == Some((col, true)) ==> r@ == " ↓"@,
        sort == Some((col, false)) ==> r@ == " ↑"@,
        sort != Some((col, true)) && sort != Some((col, false)) ==> r@ == ""@,
{
    arrow_text(direction_of(sort, col))
}

/// A point in time no later than another; never signed in counts as earliest.
pub open spec fn signed_in_by(a: Option<Timestamp>, b: Option<Timestamp>) -> bool {
    match (a, b) {
        (None, _) => true,
        (Some(_), None) => false,
        (Some(x), Some(y)) => x@ <= y@,
    }
}

/// The value of `a` in the column is no greater than that of `b`.
pub open spec fn column_le(col: SortCol, a: AuditItem, b: AuditItem) -> bool {
    match col {
        SortCol::Name => text_precedes(
            lowercase_of(a.application_name@),
            lowercase_of(b.application_name@),
            false,
        ),
        SortCol::Score => a.risk_score <= b.risk_score,
        SortCol::LastSignIn => signed_in_by(a.last_sign_in, b.last_sign_in),
    }
}

/// The item `a` may stand before `b` under the sort.
pub open spec fn may_stand_before(col: SortCol, desc: bool, a: AuditItem, b: AuditItem) -> bool {
    if desc {
        column_le(col, b, a)
    } else {
        column_le(col, a, b)
    }
}

/// The rows are in the order of the sort, rows that tie in their original order.
pub open spec fn sorted_rows(
    items: Seq<AuditItem>,
    col: SortCol,
    desc: bool,
    rows: Seq<usize>,
) -> bool {
    forall|i: int, j: int| #![trigger rows[i], rows[j]]
        0 <= i < j < rows.len() ==> {
            let (a, b) = (items[rows[i] as int], items[rows[j] as int]);
            may_stand_before(col, desc, a, b) && (may_stand_before(col, desc, b, a) ==> rows[i]
                < rows[j])
        }
}

struct ByScore<'a> {
    items: &'a [AuditItem],
    desc: bool,
}

impl<'a> Ranking for ByScore<'a> {
    closed spec fn ranks(&self, i: usize) -> bool {
        i < self.items@.len()
    }

    closed spec fn le(&self, a: usize, b: usize) -> bool {
        may_stand_before(SortCol::Score, self.desc, self.items@[a as int], self.items@[b as int])
    }

    proof fn lawful(&self, a: usize, b: usize, c: usize) {
    }

    fn may_precede(&self, a: usize, b: usize) -> (r: bool) {
        if self.desc {
            self.items[b].risk_score <= self.items[a].risk_score
        } else {
            self.items[a].risk_score <= self.items[b].risk_score
        }
    }
}

struct BySignIn<'a> {
    items: &'a [AuditItem],
    desc: bool,
}

fn no_later(a: Option<Timestamp>, b: Option<Timestamp>) -> (r: bool)
    ensures
        r == signed_in_by(a, b),
{
    match (a, b) {
        (None, _) => true,
        (Some(_), None) => false,
        (Some(x), Some(y)) => x.not_after(y),
    }
}

impl<'a> Ranking for BySignIn<'a> {
    closed spec fn ranks(&self, i: usize) -> bool {
        i < self.items@.len()
    }

    closed spec fn le(&self, a: usize, b: usize) -> bool {
        may_stand_before(
            SortCol::LastSignIn,
            self.desc,
            self.items@[a as int],
            self.items@[b as int],
        )
    }

    proof fn lawful(&self, a: usize, b: usize, c: usize) {
    }

    fn may_precede(&self, a: usize, b: usize) -> (r: bool) {
        if self.desc {
            no_later(self.items[b].last_sign_in, self.items[a].last_sign_in)
        } else {
            no_later(self.items[a].last_sign_in, self.items[b].last_sign_in)
        }
    }
}

/// The lower-case names of the items, as characters.
fn name_keys(items: &[AuditItem]) -> (r: Vec<Vec<char>>)
    ensures
        r@.len() == items@.len(),
        forall|i: int|
            0 <= i < r@.len() ==> (#[trigger] r@[i])@ == lowercase_of(items@[i].application_name@),
{
    let mut out: Vec<Vec<char>> = Vec::new();
    for k in 0..items.len()
        invariant
            out@.len() == k,
            forall|i: int|
                0 <= i < k ==> (#[trigger] out@[i])@ == lowercase_of(items@[i].application_name@),
    {
        let name = lower(items[k].application_name.as_str());
        out.push(characters(name.as_str()));
    }
    out
}

/// The selected rows in the order of a sort.
pub fn sort_selected(items: &[AuditItem], rows: &Vec<usize>, col: SortCol, desc: bool) -> (r: Vec<
    usize,
>)
    requires
        ascending(rows@),
        forall|k: int| 0 <= k < rows@.len() ==> (#[trigger] rows@[k]) < items@.len(),
    ensures
        rearranged(r@, rows@),
        sorted_rows(items@, col, desc, r@),
{
    let r = match col {
        SortCol::Name => {
            let order = TextOrder { keys: name_keys(items), desc };
            let r = sort_rows(&order, rows);
            proof {
                assert forall|i: int, j: int| #![trigger r@[i], r@[j]]
                    0 <= i < j < r@.len() implies order.le(r@[i], r@[j]) && (order.le(
                    r@[j],
                    r@[i],
                ) ==> r@[i] < r@[j]) && r@[i] < items@.len() && r@[j] < items@.len() by {
                    crate::order::lemma_rearranged_members(r@, rows@, i);
                    crate::order::lemma_rearranged_members(r@, rows@, j);
                }
            }
            r
        },
        SortCol::Score => {
            let order = ByScore { items, desc };
            let r = sort_rows(&order, rows);
            proof {
                assert forall|i: int, j: int| #![trigger r@[i], r@[j]]
                    0 <= i < j < r@.len() implies order.le(r@[i], r@[j]) && (order.le(
                    r@[j],
                    r@[i],
                ) ==> r@[i] < r@[j]) by {
                }
            }
            r
        },
        SortCol::LastSignIn => {
            let order = BySignIn { items, desc };
            let r = sort_rows(&order, rows);
            proof {
                assert forall|i: int, j: int| #![trigger r@[i], r@[j]]
                    0 <= i < j < r@.len() implies order.le(r@[i], r@[j]) && (order.le(
                    r@[j],
                    r@[i],
                ) ==> r@[i] < r@[j]) by {
                }
            }
            r
        },
    };
    r
}

/// A sort leaves no choice: two orders of the same rows under the same sort are
/// the same.
pub proof fn a_sort_leaves_no_choice(
    items: Seq<AuditItem>,
    col: SortCol,
    desc: bool,
    s: Seq<usize>,
    t: Seq<usize>,
)
    requires
        rearranged(s, t),
        sorted_rows(items, col, desc, s),
        sorted_rows(items, col, desc, t),
    ensures
        s == t,
{
    let precedes = |a: usize, b: usize|
        {
            let (x, y) = (items[a as int], items[b as int]);
            may_stand_before(col, desc, x, y) && (may_stand_before(col, desc, y, x) ==> a < b)
        };
    crate::order::order_is_unique(precedes, s, t);
}

/// By name, the first character in which two lower-case names differ decides, and a
/// name stands before the longer ones that it opens; the other way round where the
/// sort descends. Items of one name keep the order of the run either way.
pub proof fn names_stand_alphabetically(
    items: Seq<AuditItem>,
    desc: bool,
    rows: Seq<usize>,
    i: int,
    j: int,
    k: int,
)
    requires
        sorted_rows(items, SortCol::Name, desc, rows),
        0 <= i < j < rows.len(),
    ensures
        ({
            let a = lowercase_of(items[rows[i] as int].application_name@);
            let b = lowercase_of(items[rows[j] as int].application_name@);
            &&& 0 <= k < a.len() && k < b.len() && a.take(k) == b.take(k) && a[k] != b[k]
                ==> if desc {
                (a[k] as int) > (b[k] as int)
            } else {
                (a[k] as int) < (b[k] as int)
            }
            &&& a.is_prefix_of(b) && a.len() < b.len() ==> !desc
            &&& b.is_prefix_of(a) && b.len() < a.len() ==> desc
            &&& a == b ==> rows[i] < rows[j]
        }),
{
    let a = lowercase_of(items[rows[i] as int].application_name@);
    let b = lowercase_of(items[rows[j] as int].application_name@);
    assert(may_stand_before(
        SortCol::Name,
        desc,
        items[rows[i] as int],
        items[rows[j] as int],
    ));
    if 0 <= k < a.len() && k < b.len() && a.take(k) == b.take(k) && a[k] != b[k] {
        assert forall|n: int| 0 <= n < k implies a[n] == b[n] by {
            assert(a.take(k)[n] == b.take(k)[n]);
        }
        if (a[k] as int) < (b[k] as int) {
            the_first_difference_decides(a, b, k);
        } else {
            the_first_difference_decides(b, a, k);
        }
    }
    if a.is_prefix_of(b) {
        an_opening_comes_first(a, b);
    }
    if b.is_prefix_of(a) {
        an_opening_comes_first(b, a);
    }
}

/// By score, the lesser one stands first, or the greater one where the sort
/// descends; by last sign-in, the earlier one, with whoever never signed in before
/// all others, or the other way round. Items of equal value keep the order of the
/// run.
pub proof fn scores_and_sign_ins_stand_in_order(
    items: Seq<AuditItem>,
    desc: bool,
    rows: Seq<usize>,
    i: int,
    j: int,
)
    requires
        0 <= i < j < rows.len(),
    ensures
        sorted_rows(items, SortCol::Score, desc, rows) ==> {
            let (a, b) = (items[rows[i] as int].risk_score, items[rows[j] as int].risk_score);
            &&& !desc ==> a <= b
            &&& desc ==> a >= b
            &&& a == b ==> rows[i] < rows[j]
        },
        sorted_rows(items, SortCol::LastSignIn, desc, rows) ==> {
            let (a, b) = (items[rows[i] as int].last_sign_in, items[rows[j] as int].last_sign_in);
            &&& a is None && b is Some ==> !desc
            &&& a is Some && b is None ==> desc
            &&& a is Some && b is Some && !desc ==> a->0@ <= b->0@
            &&& a is Some && b is Some && desc ==> a->0@ >= b->0@
            &&& a is Some && b is Some && a->0@ == b->0@ ==> rows[i] < rows[j]
            &&& a is None && b is None ==> rows[i] < rows[j]
        },
{
    let (a, b) = (items[rows[i] as int], items[rows[j] as int]);
    if sorted_rows(items, SortCol::Score, desc, rows) {
        assert(may_stand_before(SortCol::Score, desc, a, b));
    }
    if sorted_rows(items, SortCol::LastSignIn, desc, rows) {
        assert(may_stand_before(SortCol::LastSignIn, desc, a, b));
    }
}

/// The first click on a heading sorts its column, whatever the table was sorted by:
/// names upwards, scores and sign-ins downwards. The second click turns it round,
/// the third takes the sort away.
pub proof fn a_click_starts_turns_and_ends_a_sort(sort: Sort, col: SortCol)
    ensures
        sort != Some((col, true)) && sort != Some((col, false)) ==> toggled(sort, col) == Some(
            (col, !(col is Name)),
        ),
        toggled(Some((col, !(col is Name))), col) == Some((col, col is Name)),
        toggled(Some((col, col is Name)), col) == None::<(SortCol, bool)>,
{
}

} // verus!
