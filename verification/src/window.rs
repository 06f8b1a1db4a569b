//! The part of a long table that is drawn: the first page, and one page more
//! with every "Show more".

use crate::text::{count, decimal};
use vstd::prelude::*;
use vstd::string::*;

verus! {

/// How many rows a page holds.
pub const RENDER_PAGE: usize = 200;

/// How many of the matching rows are drawn.
pub open spec fn drawn(limit: nat, matched: nat) -> nat {
    if limit < matched {
        limit
    } else {
        matched
    }
}

/// How many rows the next "Show more" adds.
pub open spec fn next_page(limit: nat, matched: nat) -> nat {
    if matched - limit < RENDER_PAGE {
        (matched - limit) as nat
    } else {
        RENDER_PAGE as nat
    }
}

/// The rows that are drawn.
#[derive(Clone, Copy, Debug, PartialEq, Eq, Structural)]
pub struct RowWindow {
    pub limit: usize,
}

/// The window once a run with `after` items stands where one with `before` items
/// stood: back at the first page, unless the number is the same.
pub open spec fn window_over(w: RowWindow, before: Option<usize>, after: Option<usize>) -> RowWindow {
    if before == after {
        w
    } else {
        RowWindow { limit: RENDER_PAGE }
    }
}

/// The line and the button below a table that is not drawn to its end.
#[derive(Debug)]
pub struct MoreRows {
    pub label: String,
    pub button: String,
}

impl RowWindow {
    /// The first page.
    pub fn new() -> (r: RowWindow)
        ensures
            r.limit == RENDER_PAGE,
    {
        RowWindow { limit: RENDER_PAGE }
    }

    /// Back to the first page.
    pub fn reset(&mut self)
        ensures
            final(self).limit == RENDER_PAGE,
    {
        self.limit = RENDER_PAGE;
    }

    /// A run with another number of items starts at the first page.
    pub fn total_changed(&mut self, before: Option<usize>, after: Option<usize>)
        ensures
            *final(self) == window_over(*old(self), before, after),
            before == after ==> final(self).limit == old(self).limit,
            before != after ==> final(self).limit == RENDER_PAGE,
    {
        let same_total = match (before, after) {
            (Some(a), Some(b)) => a == b,
            (None, None) => true,
            _ => false,
        };
        if !same_total {
            self.reset();
        }
    }

    /// One page more.
    pub fn grow(&mut self)
        requires
            old(self).limit <= usize::MAX - RENDER_PAGE,
        ensures
            final(self).limit == old(self).limit + RENDER_PAGE,
    {
        self.limit = self.limit + RENDER_PAGE;
    }

    /// The line and the button below the table, while rows are left out. `noun`
    /// says what the rows are.
    pub fn more(&self, matched: usize, noun: &str) -> (r: Option<MoreRows>)
        ensures
            r is Some <==> matched > self.limit,
            r matches Some(m) ==> {
                &&& m.label@ == "Showing "@ + decimal(self.limit as nat) + " of "@ + decimal(
                    matched as nat,
                ) + " "@ + noun@
                &&& m.button@ == "Show "@ + decimal(next_page(self.limit as nat, matched as nat))
                    + " more"@
            },
    {
        if matched <= self.limit {
            return None;
        }
        let remaining: usize = matched - self.limit;
        let next: usize = if remaining < RENDER_PAGE {
            remaining
        } else {
            RENDER_PAGE
        };
        let mut label = "Showing ".to_owned();
        label.append(count(self.limit).as_str());
        label.append(" of ");
        label.append(count(matched).as_str());
        label.append(" ");
        label.append(noun);
        let mut button = "Show ".to_owned();
        button.append(count(next).as_str());
        button.append(" more");
        Some(MoreRows { label, button })
    }

    /// The rows that are drawn.
    pub fn first(&self, rows: &Vec<usize>) -> (r: Vec<usize>)
        ensures
            r@ == rows@.take(drawn(self.limit as nat, rows@.len()) as int),
    {
        let n: usize = if self.limit < rows.len() {
            self.limit
        } else {
            rows.len()
        };
        let mut out: Vec<usize> = Vec::new();
        for k in 0..n
            invariant
                n <= rows@.len(),
                out@ == rows@.take(k as int),
        {
            out.push(rows[k]);
        }
        out
    }
}

/// "Show more" adds as many rows as its button says.
pub proof fn show_more_keeps_its_word(limit: nat, matched: nat)
    requires
        limit < matched,
    ensures
        drawn(limit + RENDER_PAGE as nat, matched) == drawn(limit, matched) + next_page(
            limit,
            matched,
        ),
{
}

/// The window draws the first rows: as many as it is wide, or all of them where
/// there are fewer.
pub proof fn the_window_draws_no_more_than_there_is(limit: nat, matched: nat)
    ensures
        drawn(limit, matched) <= limit,
        drawn(limit, matched) <= matched,
        drawn(limit, matched) == limit || drawn(limit, matched) == matched,
        limit < matched ==> 0 < next_page(limit, matched) <= 200,
        limit < matched ==> next_page(limit, matched) == 200 || limit + next_page(limit, matched)
            == matched,
{
}

} // verus!
