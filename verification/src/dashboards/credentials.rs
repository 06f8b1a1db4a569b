//! When the secrets and certificates of the tenant end.

use crate::audit::CredentialStatus;
use crate::home_dashboard::{ends_within, CredentialExpiry};
use crate::rows::{
    a_selection_is_exact, count_rows, positions, selection_size, selects, tally, RowTest,
};
use crate::text::{
    contains_ignore_case, count, decimal, lowercase_of, occurs_in, same, what_occurs_stands_between,
};
use crate::time::{date_cell, fmt_date, signed_decimal, signed_number, Timestamp};
use vstd::prelude::*;
use vstd::string::*;

verus! {

/// So many days before its end a credential is critical.
pub const CRITICAL_DAYS: i64 = 7;

/// So many days before its end a credential is worth a warning.
pub const WARNING_DAYS: i64 = 30;

/// A secret or a certificate of an app registration.
#[derive(Debug)]
pub struct CredentialRow {
    pub app_object_id: String,
    pub app_id: String,
    pub app_display_name: String,
    pub credential_name: String,
    pub expiry: CredentialExpiry,
    pub end: Option<Timestamp>,
}

proof fn lemma_facet_keys()
    ensures
        "expired"@ != "7"@,
        "expired"@ != "30"@,
        "7"@ != "30"@,
{
    reveal_strlit("expired");
    reveal_strlit("7");
    reveal_strlit("30");
    assert("expired"@.len() == 7);
    assert("7"@.len() == 1);
    assert("30"@.len() == 2);
}

/// The credential is in the facet; a key that names none filters nothing.
pub open spec fn in_facet(r: CredentialRow, facet: Seq<char>) -> bool {
    if facet == "expired"@ {
        r.expiry.status is Expired
    } else if facet == "7"@ {
        ends_within(r.expiry, CRITICAL_DAYS as int)
    } else if facet == "30"@ {
        ends_within(r.expiry, WARNING_DAYS as int)
    } else {
        true
    }
}

fn within(r: &CredentialRow, days: i64) -> (b: bool)
    ensures
        b == ends_within(r.expiry, days as int),
{
    match r.expiry.days_to_expiry {
        Some(d) => 0 <= d && d <= days,
        None => false,
    }
}

/// Whether the credential is in the facet.
pub fn matches_facet(r: &CredentialRow, facet: &str) -> (b: bool)
    ensures
        b == in_facet(*r, facet@),
        facet@ == "expired"@ ==> b == r.expiry.status is Expired,
        facet@ == "7"@ ==> b == (r.expiry.days_to_expiry matches Some(d) && 0 <= d <= 7),
        facet@ == "30"@ ==> b == (r.expiry.days_to_expiry matches Some(d) && 0 <= d <= 30),
        facet@ != "expired"@ && facet@ != "7"@ && facet@ != "30"@ ==> b,
{
    proof {
        lemma_facet_keys();
    }
    if same(facet, "expired") {
        matches!(r.expiry.status, CredentialStatus::Expired)
    } else if same(facet, "7") {
        within(r, CRITICAL_DAYS)
    } else if same(facet, "30") {
        within(r, WARNING_DAYS)
    } else {
        true
    }
}

/// The credential is shown under facet and search, by application or by its id;
/// an empty search finds all.
pub open spec fn is_shown(r: CredentialRow, facet: Seq<char>, q: Seq<char>) -> bool {
    &&& in_facet(r, facet)
    &&& q.len() == 0 || occurs_in(q, lowercase_of(r.app_display_name@)) || occurs_in(
        q,
        lowercase_of(r.app_id@),
    )
}

struct Shown<'a> {
    facet: &'a str,
    q: &'a str,
}

impl<'a> RowTest<CredentialRow> for Shown<'a> {
    closed spec fn holds(&self, row: CredentialRow) -> bool {
        is_shown(row, self.facet@, self.q@)
    }

    fn test(&self, row: &CredentialRow) -> (r: bool) {
        matches_facet(row, self.facet) && (self.q.is_empty() || contains_ignore_case(
            row.app_display_name.as_str(),
            self.q,
        ) || contains_ignore_case(row.app_id.as_str(), self.q))
    }
}

struct InFacet<'a> {
    facet: &'a str,
}

impl<'a> RowTest<CredentialRow> for InFacet<'a> {
    closed spec fn holds(&self, row: CredentialRow) -> bool {
        in_facet(row, self.facet@)
    }

    fn test(&self, row: &CredentialRow) -> (r: bool) {
        matches_facet(row, self.facet)
    }
}

/// How many credentials are in the facet.
pub open spec fn facet_size(all: Seq<CredentialRow>, facet: Seq<char>) -> nat {
    tally(all, |r: CredentialRow| in_facet(r, facet))
}

fn count_facet(all: &[CredentialRow], facet: &str) -> (r: usize)
    ensures
        r == facet_size(all@, facet@),
{
    let t = InFacet { facet };
    let r = count_rows(all, &t);
    proof {
        assert((|r: CredentialRow| t.holds(r)) =~= (|r: CredentialRow| in_facet(r, facet@)));
    }
    r
}

/// The view.
#[derive(Debug)]
pub struct CredentialsDashboard {}

impl CredentialsDashboard {
    /// The rows that are shown under facet and search, in the order of the load.
    pub fn rows(all: &[CredentialRow], facet: &str, q: &str) -> (r: Vec<usize>)
        ensures
            selects(all@, |r: CredentialRow| is_shown(r, facet@, q@), r@),
    {
        let t = Shown { facet, q };
        let r = positions(all, &t);
        proof {
            assert((|r: CredentialRow| t.holds(r)) =~= (|r: CredentialRow|
                is_shown(r, facet@, q@)));
        }
        r
    }

    /// The warning above the table; none where nothing has ended and nothing is
    /// critical.
    pub fn banner(all: &[CredentialRow]) -> (r: Option<String>)
        ensures
            r is Some <==> facet_size(all@, "expired"@) > 0 || facet_size(all@, "7"@) > 0,
            r matches Some(t) ==> t@ == decimal(facet_size(all@, "expired"@))
                + " credential(s) already expired; "@ + decimal(facet_size(all@, "7"@))
                + " expire within "@ + signed_decimal(CRITICAL_DAYS as int) + " days."@,
            r matches Some(t) ==> t@ == decimal(facet_size(all@, "expired"@))
                + " credential(s) already expired; "@ + decimal(facet_size(all@, "7"@))
                + " expire within "@ + signed_decimal(7) + " days."@,
    {
        let expired = count_facet(all, "expired");
        let soon = count_facet(all, "7");
        if expired == 0 && soon == 0 {
            return None;
        }
        let mut s = count(expired);
        s.append(" credential(s) already expired; ");
        s.append(count(soon).as_str());
        s.append(" expire within ");
        s.append(signed_number(CRITICAL_DAYS).as_str());
        s.append(" days.");
        Some(s)
    }
}

/// The number of days, or `otherwise` where it is not known.
pub open spec fn days_left(days: Option<i64>, otherwise: Seq<char>) -> Seq<char> {
    match days {
        Some(d) => signed_decimal(d as int) + "d left"@,
        None => otherwise,
    }
}

/// The label and the colour of a credential.
pub open spec fn badge_words(status: CredentialStatus, days: Option<i64>) -> (Seq<char>, Seq<char>) {
    match status {
        CredentialStatus::Expired => ("Expired"@, "badge--danger"@),
        CredentialStatus::ExpiringSoon => (
            days_left(days, "Expiring"@),
            if days is Some && days->0 <= CRITICAL_DAYS {
                "badge--danger"@
            } else {
                "badge--warning"@
            },
        ),
        CredentialStatus::Active => (days_left(days, "Active"@), "badge--ok"@),
        CredentialStatus::Unknown => ("No expiry"@, "badge--unknown"@),
    }
}

fn left(days: Option<i64>, otherwise: &str) -> (r: String)
    ensures
        r@ == days_left(days, otherwise@),
{
    match days {
        Some(d) => {
            let mut s = signed_number(d);
            s.append("d left");
            s
        },
        None => otherwise.to_owned(),
    }
}

/// The label and the colour of a credential.
pub fn status_badge(status: CredentialStatus, days: Option<i64>) -> (r: (String, &'static str))
    ensures
        (r.0@, r.1@) == badge_words(status, days),
        status is Expired ==> r.0@ == "Expired"@ && r.1@ == "badge--danger"@,
        status is Unknown ==> r.0@ == "No expiry"@ && r.1@ == "badge--unknown"@,
        status is ExpiringSoon || status is Active ==> (days matches Some(d) ==> r.0@
            == signed_decimal(d as int) + "d left"@),
        status is ExpiringSoon && days is None ==> r.0@ == "Expiring"@,
        status is Active && days is None ==> r.0@ == "Active"@,
        status is ExpiringSoon ==> r.1@ == if days matches Some(d) && d <= 7 {
            "badge--danger"@
        } else {
            "badge--warning"@
        },
        status is Active ==> r.1@ == "badge--ok"@,
{
    match status {
        CredentialStatus::Expired => ("Expired".to_owned(), "badge--danger"),
        CredentialStatus::ExpiringSoon => {
            let class = match days {
                Some(d) if d <= CRITICAL_DAYS => "badge--danger",
                _ => "badge--warning",
            };
            (left(days, "Expiring"), class)
        },
        CredentialStatus::Active => (left(days, "Active"), "badge--ok"),
        CredentialStatus::Unknown => ("No expiry".to_owned(), "badge--unknown"),
    }
}

/// What a row shows of its end.
#[derive(Debug)]
pub struct CredentialCells {
    pub expires: String,
    pub status: String,
    pub class: String,
}

/// What a row shows of its end.
pub fn credential_row(r: &CredentialRow) -> (c: CredentialCells)
    ensures
        c.expires@ == date_cell(r.end),
        c.status@ == badge_words(r.expiry.status, r.expiry.days_to_expiry).0,
        c.class@ == "badge "@ + badge_words(r.expiry.status, r.expiry.days_to_expiry).1,
{
    let (status, badge) = status_badge(r.expiry.status, r.expiry.days_to_expiry);
    let mut class = "badge ".to_owned();
    class.append(badge);
    CredentialCells { expires: fmt_date(r.end), status, class }
}

/// A facet without a search shows as many rows as it has. The start page counts
/// by the same facets.
pub proof fn a_facet_shows_what_it_counts(
    all: Seq<CredentialRow>,
    facet: Seq<char>,
    shown: Seq<usize>,
)
    requires
        all.len() <= usize::MAX,
        selects(all, |r: CredentialRow| is_shown(r, facet, Seq::empty()), shown),
    ensures
        shown.len() == facet_size(all, facet),
        facet == "expired"@ ==> shown.len() == tally(
            all.map_values(|r: CredentialRow| r.expiry),
            |c: CredentialExpiry| c.status is Expired,
        ),
        facet == "7"@ ==> shown.len() == tally(
            all.map_values(|r: CredentialRow| r.expiry),
            |c: CredentialExpiry| ends_within(c, 7),
        ),
        facet == "30"@ ==> shown.len() == tally(
            all.map_values(|r: CredentialRow| r.expiry),
            |c: CredentialExpiry| ends_within(c, 30),
        ),
{
    reveal_strlit("expired");
    reveal_strlit("7");
    reveal_strlit("30");
    assert("expired"@.len() == 7);
    assert("7"@.len() == 1);
    assert("30"@.len() == 2);
    let p = |r: CredentialRow| is_shown(r, facet, Seq::empty());
    let q = |r: CredentialRow| in_facet(r, facet);
    assert(p =~= q);
    selection_size(all, p, shown);
    if facet == "expired"@ {
        let c = |c: CredentialExpiry| c.status is Expired;
        assert(q =~= (|r: CredentialRow| c(r.expiry)));
        lemma_tally_of_expiries(all, c);
    } else if facet == "7"@ {
        let c = |c: CredentialExpiry| ends_within(c, 7);
        assert(q =~= (|r: CredentialRow| c(r.expiry)));
        lemma_tally_of_expiries(all, c);
    } else if facet == "30"@ {
        let c = |c: CredentialExpiry| ends_within(c, 30);
        assert(q =~= (|r: CredentialRow| c(r.expiry)));
        lemma_tally_of_expiries(all, c);
    }
}

proof fn lemma_tally_of_expiries(all: Seq<CredentialRow>, c: spec_fn(CredentialExpiry) -> bool)
    ensures
        tally(all, |r: CredentialRow| c(r.expiry)) == tally(
            all.map_values(|r: CredentialRow| r.expiry),
            c,
        ),
    decreases all.len(),
{
    let mapped = all.map_values(|r: CredentialRow| r.expiry);
    if all.len() > 0 {
        lemma_tally_of_expiries(all.drop_last(), c);
        assert(mapped.drop_last() =~= all.drop_last().map_values(|r: CredentialRow| r.expiry));
        assert(mapped.last() == all.last().expiry);
    }
}

/// A row is among those shown exactly if it has ended, where the facet is "expired",
/// or ends in at most so many days, none of them past, where it is "7" or "30", and
/// the search text stands in its application or in its application id, in whatever
/// case; an empty search finds all.
pub proof fn a_credential_is_shown_by_its_end_and_its_application(
    all: Seq<CredentialRow>,
    facet: Seq<char>,
    q: Seq<char>,
    shown: Seq<usize>,
    i: int,
)
    requires
        selects(all, |r: CredentialRow| is_shown(r, facet, q), shown),
        0 <= i < all.len() <= usize::MAX,
    ensures
        ({
            let r = all[i];
            let days = r.expiry.days_to_expiry;
            shown.contains(i as usize) <==> (facet == "expired"@ ==> r.expiry.status is Expired)
                && (facet == "7"@ ==> days is Some && 0 <= days->0 <= 7) && (facet == "30"@
                ==> days is Some && 0 <= days->0 <= 30) && (q.len() == 0
                || (exists|front: Seq<char>, back: Seq<char>|
            lowercase_of(r.app_display_name@) == #[trigger] (front + q + back))
                || (exists|front: Seq<char>, back: Seq<char>|
            lowercase_of(r.app_id@) == #[trigger] (front + q + back)))
        }),
{
    let r = all[i];
    lemma_facet_keys();
    what_occurs_stands_between(q, lowercase_of(r.app_display_name@));
    what_occurs_stands_between(q, lowercase_of(r.app_id@));
    a_selection_is_exact(all, |r: CredentialRow| is_shown(r, facet, q), shown, i as usize, 0, 0);
}

} // verus!
