//! What the inventory lists share: the search, the range of creation dates, and
//! the words for what is shown.

use crate::text::{
    blank, blank_means_nothing_but_white_space, contains_ignore_case, count, decimal, lower,
    lowercase_of, occurs_in, trimmed, trimmed_or_none, what_occurs_stands_between, white,
};
use crate::time::{Timestamp, DAY};
use vstd::prelude::*;
use vstd::string::*;

verus! {

/// A row created in the range of days, both ends of it in; an end that is not set
/// is open. Where an end is set, a row of unknown date is out.
pub open spec fn in_range(created: Option<Timestamp>, after: Option<i64>, before: Option<i64>) -> bool {
    match created {
        Some(t) => {
            &&& after matches Some(d) ==> d <= t@ / (DAY as int)
            &&& before matches Some(d) ==> t@ / (DAY as int) <= d
        },
        None => after is None && before is None,
    }
}

/// Whether a row was created in the range of days. Days are counted from the
/// first of 1970.
pub fn created_in_range(
    created: Option<Timestamp>,
    after: Option<i64>,
    before: Option<i64>,
) -> (r: bool)
    ensures
        r == in_range(created, after, before),
{
    match created {
        Some(t) => {
            let day = t.day();
            let late_enough = match after {
                Some(d) => d <= day,
                None => true,
            };
            let early_enough = match before {
                Some(d) => day <= d,
                None => true,
            };
            late_enough && early_enough
        },
        None => after.is_none() && before.is_none(),
    }
}

/// What a search looks for, in lower case and without its outer white space;
/// nothing where it is blank.
pub fn needle(search: &str) -> (r: Option<String>)
    ensures
        r is None <==> blank(search@),
        r matches Some(n) ==> n@ == lowercase_of(trimmed(search@)),
{
    match trimmed_or_none(search) {
        None => None,
        Some(t) => Some(lower(t.as_str())),
    }
}

/// The text holds what the search looks for, in whatever case; a blank search
/// looks for nothing.
pub open spec fn hit(text: Seq<char>, search: Seq<char>) -> bool {
    blank(search) || occurs_in(lowercase_of(trimmed(search)), lowercase_of(text))
}

/// The text holds the needle, if there is one.
pub open spec fn found(text: Seq<char>, needle: Option<String>) -> bool {
    needle matches Some(n) ==> occurs_in(n@, lowercase_of(text))
}

/// Whether the text holds the needle, if there is one.
pub fn is_hit(text: &str, needle: &Option<String>) -> (r: bool)
    ensures
        r == found(text@, *needle),
        needle is None ==> r,
        needle matches Some(n) ==> r == occurs_in(n@, lowercase_of(text@)),
{
    match needle {
        None => true,
        Some(n) => contains_ignore_case(text, n.as_str()),
    }
}

/// "12 apps", or "3 of 12 apps" where some are filtered out.
pub open spec fn count_line(shown: nat, total: nat, noun: Seq<char>) -> Seq<char> {
    if shown == total {
        decimal(total) + " "@ + noun
    } else {
        decimal(shown) + " of "@ + decimal(total) + " "@ + noun
    }
}

/// How many rows are shown, in words.
pub fn count_text(shown: usize, total: usize, noun: &str) -> (r: String)
    ensures
        r@ == count_line(shown as nat, total as nat, noun@),
        shown == total ==> r@ == decimal(total as nat) + " "@ + noun@,
        shown != total ==> r@ == decimal(shown as nat) + " of "@ + decimal(total as nat) + " "@
            + noun@,
{
    let mut s = count(shown);
    if shown != total {
        s.append(" of ");
        s.append(count(total).as_str());
    }
    s.append(" ");
    s.append(noun);
    s
}

/// How many of three filters are set.
pub open spec fn filters_set(facet: bool, after: Option<i64>, before: Option<i64>) -> int {
    (if facet {
        1int
    } else {
        0int
    }) + (if after is Some {
        1int
    } else {
        0int
    }) + (if before is Some {
        1int
    } else {
        0int
    })
}

/// How many of three filters are set: the number on the button of the drawer.
pub fn active_filters(facet: bool, after: Option<i64>, before: Option<i64>) -> (r: usize)
    ensures
        r == filters_set(facet, after, before),
        r <= 3,
        r == 0 <==> !facet && after is None && before is None,
        r == 3 <==> facet && after is Some && before is Some,
        r == 1 <==> (facet && after is None && before is None) || (!facet && (after is Some
            <==> before is None)),
{
    let mut n: usize = 0;
    if facet {
        n += 1;
    }
    if after.is_some() {
        n += 1;
    }
    if before.is_some() {
        n += 1;
    }
    n
}

/// The name of a row: its application id where it has none.
pub open spec fn row_name(display_name: String, app_id: String) -> String {
    if display_name@.len() == 0 {
        app_id
    } else {
        display_name
    }
}

/// The name of a row.
pub fn name_or_id(display_name: &String, app_id: &String) -> (r: String)
    ensures
        r == row_name(*display_name, *app_id),
        display_name@.len() == 0 ==> r == *app_id,
        display_name@.len() > 0 ==> r == *display_name,
{
    if display_name.as_str().is_empty() {
        app_id.clone()
    } else {
        display_name.clone()
    }
}

/// The class of a row; one whose item is open stands out.
pub fn row_class(open: bool) -> (r: &'static str)
    ensures
        r@ == if open {
            "app-list__row app-list__row--selected"@
        } else {
            "app-list__row"@
        },
{
    if open {
        "app-list__row app-list__row--selected"
    } else {
        "app-list__row"
    }
}

/// What stands in place of an empty list.
#[derive(Clone, Copy, Debug, PartialEq, Eq, Structural)]
pub enum EmptyList {
    /// The tenant has none: an invitation to make one.
    NoneYet,
    /// Every row is filtered out.
    NoMatch,
}

/// What stands in place of an empty list.
pub fn empty_list(shown: usize, total: usize) -> (r: Option<EmptyList>)
    ensures
        r == if shown > 0 {
            None
        } else if total == 0 {
            Some(EmptyList::NoneYet)
        } else {
            Some(EmptyList::NoMatch)
        },
{
    if shown > 0 {
        None
    } else if total == 0 {
        Some(EmptyList::NoneYet)
    } else {
        Some(EmptyList::NoMatch)
    }
}

/// The range of creation dates is one of whole days, both ends of it in: a row is in
/// exactly if it was created no earlier than the first moment of the one end and
/// before the day after the other is over. A row of unknown date is in only where
/// neither end is set.
pub proof fn both_ends_of_the_range_are_in(
    created: Option<Timestamp>,
    after: Option<i64>,
    before: Option<i64>,
)
    ensures
        in_range(created, after, before) <==> match created {
            Some(t) => (after matches Some(d) ==> d * 86_400_000_000_000 <= t@) && (
            before matches Some(d) ==> t@ < (d + 1) * 86_400_000_000_000),
            None => after is None && before is None,
        },
{
    if let Some(t) = created {
        let q = t@ / 86_400_000_000_000;
        vstd::arithmetic::div_mod::lemma_fundamental_div_mod(t@, 86_400_000_000_000);
        vstd::arithmetic::div_mod::lemma_mod_bound(t@, 86_400_000_000_000);
    }
}

/// A search finds a text exactly if the words that were typed, without the white
/// space around them, stand somewhere in it, in whatever case; a search of nothing
/// but white space finds every text.
pub proof fn a_search_finds_its_words(text: Seq<char>, search: Seq<char>)
    ensures
        hit(text, search) <==> (forall|k: int| 0 <= k < search.len() ==> white(#[trigger] search[k]))
            || exists|front: Seq<char>, back: Seq<char>|
            lowercase_of(text) == #[trigger] (front + lowercase_of(trimmed(search)) + back),
{
    blank_means_nothing_but_white_space(search);
    what_occurs_stands_between(lowercase_of(trimmed(search)), lowercase_of(text));
}

} // verus!
