//! The sort that a click on a column heading asks for.

use crate::order::Ranking;
use crate::text::{chars_le, lemma_text_order, text_le, the_first_difference_decides};
use vstd::prelude::*;

verus! {

/// What a click on a heading makes of that column's direction: first its
/// default direction, then the reverse, then no sort at all. `current` is the
/// direction in which the column is sorted, if it is.
pub open spec fn clicked(current: Option<bool>, default_desc: bool) -> Option<bool> {
    match current {
        None => Some(default_desc),
        Some(desc) => if desc == default_desc {
            Some(!desc)
        } else {
            None
        },
    }
}

/// What a click on a heading makes of that column's direction.
pub fn click(current: Option<bool>, default_desc: bool) -> (r: Option<bool>)
    ensures
        r == clicked(current, default_desc),
        current is None ==> r == Some(default_desc),
        current == Some(default_desc) ==> r == Some(!default_desc),
        current == Some(!default_desc) ==> r is None,
{
    match current {
        None => Some(default_desc),
        Some(desc) => {
            if desc == default_desc {
                Some(!desc)
            } else {
                None
            }
        },
    }
}

/// Three clicks on one heading lead back to the original order, by way of both
/// directions.
pub proof fn three_clicks_restore_the_original_order(default_desc: bool)
    ensures
        clicked(None, default_desc) == Some(default_desc),
        clicked(clicked(None, default_desc), default_desc) == Some(!default_desc),
        clicked(clicked(clicked(None, default_desc), default_desc), default_desc) == None::<bool>,
{
}

/// The arrow beside a heading: down for descending, up for ascending, none
/// while the column is not sorted.
pub open spec fn arrow(current: Option<bool>) -> Seq<char> {
    match current {
        Some(true) => " ↓"@,
        Some(false) => " ↑"@,
        None => ""@,
    }
}

/// The arrow beside a heading.
pub fn arrow_text(current: Option<bool>) -> (r: &'static str)
    ensures
        r@ == arrow(current),
        current == Some(true) ==> r@ == " ↓"@,
        current == Some(false) ==> r@ == " ↑"@,
        current is None ==> r@ == ""@,
{
    match current {
        Some(true) => " ↓",
        Some(false) => " ↑",
        None => "",
    }
}

/// `a` comes no later than `b`, read backwards if `desc`.
pub open spec fn text_precedes(a: Seq<char>, b: Seq<char>, desc: bool) -> bool {
    if desc {
        text_le(b, a)
    } else {
        text_le(a, b)
    }
}

/// Rows ranked by a text each.
pub struct TextOrder {
    pub keys: Vec<Vec<char>>,
    pub desc: bool,
}

impl Ranking for TextOrder {
    open spec fn ranks(&self, i: usize) -> bool {
        i < self.keys@.len()
    }

    open spec fn le(&self, a: usize, b: usize) -> bool {
        text_precedes(self.keys@[a as int]@, self.keys@[b as int]@, self.desc)
    }

    proof fn lawful(&self, a: usize, b: usize, c: usize) {
        let (x, y, z) = (self.keys@[a as int]@, self.keys@[b as int]@, self.keys@[c as int]@);
        lemma_text_order(x, y, z);
        lemma_text_order(z, y, x);
    }

    fn may_precede(&self, a: usize, b: usize) -> (r: bool) {
        if self.desc {
            chars_le(&self.keys[b], &self.keys[a])
        } else {
            chars_le(&self.keys[a], &self.keys[b])
        }
    }
}

/// In ascending order a text stands before another that is greater at the first
/// place at which they differ, and in descending order after it.
pub proof fn the_first_difference_orders_rows(a: Seq<char>, b: Seq<char>, k: int)
    requires
        0 <= k < a.len(),
        k < b.len(),
        forall|j: int| 0 <= j < k ==> a[j] == b[j],
        (a[k] as int) < (b[k] as int),
    ensures
        text_precedes(a, b, false),
        !text_precedes(b, a, false),
        text_precedes(b, a, true),
        !text_precedes(a, b, true),
{
    the_first_difference_decides(a, b, k);
}

} // verus!
