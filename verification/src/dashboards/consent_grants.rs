//! The consents that users and administrators have given.

use crate::rows::{
    a_selection_is_exact, count_rows, positions, selection_size, selects, tally, RowTest,
};
use crate::text::{
    any_same, contains_ignore_case, count, decimal, lowercase_of, occurs_in, same, texts,
    what_occurs_stands_between,
};
use vstd::prelude::*;
use vstd::string::*;

verus! {

/// A consent.
#[derive(Debug)]
pub struct OAuth2Grant {
    pub client_sp_id: String,
    pub client_app_id: Option<String>,
    pub client_display_name: String,
    pub resource_display_name: String,
    pub consent_type: String,
    pub scopes: Vec<String>,
    pub risky_scopes: Vec<String>,
}

impl OAuth2Grant {
    /// Some of its scopes are of high risk.
    pub open spec fn risky(self) -> bool {
        self.risky_scopes@.len() > 0
    }

    /// An administrator has given it for all users.
    pub open spec fn for_all(self) -> bool {
        self.consent_type@ == "AllPrincipals"@
    }
}

proof fn lemma_facet_keys()
    ensures
        "risky"@ != "admin"@,
{
    reveal_strlit("risky");
    reveal_strlit("admin");
    assert("risky"@[0] == 'r');
    assert("admin"@[0] == 'a');
}

/// The consent is in the facet; a key that names none filters nothing.
pub open spec fn in_facet(r: OAuth2Grant, facet: Seq<char>) -> bool {
    if facet == "risky"@ {
        r.risky()
    } else if facet == "admin"@ {
        r.for_all()
    } else {
        true
    }
}

/// Whether the consent is in the facet.
pub fn matches_facet(r: &OAuth2Grant, facet: &str) -> (b: bool)
    ensures
        b == in_facet(*r, facet@),
        facet@ == "risky"@ ==> b == (r.risky_scopes@.len() > 0),
        facet@ == "admin"@ ==> b == (r.consent_type@ == "AllPrincipals"@),
        facet@ != "risky"@ && facet@ != "admin"@ ==> b,
{
    proof {
        lemma_facet_keys();
    }
    if same(facet, "risky") {
        r.risky_scopes.len() > 0
    } else if same(facet, "admin") {
        same(r.consent_type.as_str(), "AllPrincipals")
    } else {
        true
    }
}

/// The consent is shown under facet and search; an empty search finds all.
pub open spec fn is_shown(r: OAuth2Grant, facet: Seq<char>, q: Seq<char>) -> bool {
    in_facet(r, facet) && (q.len() == 0 || occurs_in(q, lowercase_of(r.client_display_name@)))
}

struct Shown<'a> {
    facet: &'a str,
    q: &'a str,
}

impl<'a> RowTest<OAuth2Grant> for Shown<'a> {
    closed spec fn holds(&self, row: OAuth2Grant) -> bool {
        is_shown(row, self.facet@, self.q@)
    }

    fn test(&self, row: &OAuth2Grant) -> (r: bool) {
        matches_facet(row, self.facet) && (self.q.is_empty() || contains_ignore_case(
            row.client_display_name.as_str(),
            self.q,
        ))
    }
}

struct Risky;

impl RowTest<OAuth2Grant> for Risky {
    closed spec fn holds(&self, row: OAuth2Grant) -> bool {
        row.risky()
    }

    fn test(&self, row: &OAuth2Grant) -> (r: bool) {
        row.risky_scopes.len() > 0
    }
}

struct RiskyForAll;

impl RowTest<OAuth2Grant> for RiskyForAll {
    closed spec fn holds(&self, row: OAuth2Grant) -> bool {
        row.risky() && row.for_all()
    }

    fn test(&self, row: &OAuth2Grant) -> (r: bool) {
        row.risky_scopes.len() > 0 && same(row.consent_type.as_str(), "AllPrincipals")
    }
}

/// The view.
#[derive(Debug)]
pub struct ConsentGrantsView {}

/// How many consents are of high risk.
pub open spec fn risky_grants(all: Seq<OAuth2Grant>) -> nat {
    tally(all, |r: OAuth2Grant| r.risky())
}

/// How many of them an administrator has given for all users.
pub open spec fn risky_for_all(all: Seq<OAuth2Grant>) -> nat {
    tally(all, |r: OAuth2Grant| r.risky() && r.for_all())
}

impl ConsentGrantsView {
    /// The rows that are shown under facet and search, in the order of the load.
    pub fn rows(all: &[OAuth2Grant], facet: &str, q: &str) -> (r: Vec<usize>)
        ensures
            selects(all@, |r: OAuth2Grant| is_shown(r, facet@, q@), r@),
    {
        let t = Shown { facet, q };
        let r = positions(all, &t);
        proof {
            assert((|r: OAuth2Grant| t.holds(r)) =~= (|r: OAuth2Grant|
                is_shown(r, facet@, q@)));
        }
        r
    }

    /// The warning above the table; none where nothing is of high risk.
    pub fn banner(all: &[OAuth2Grant]) -> (r: Option<String>)
        ensures
            r is Some <==> risky_grants(all@) > 0,
            r matches Some(t) ==> t@ == decimal(risky_grants(all@))
                + " grant(s) include high-risk scopes ("@ + decimal(risky_for_all(all@))
                + " admin-consented for all users)."@,
    {
        proof {
            assert((|r: OAuth2Grant| Risky.holds(r)) =~= (|r: OAuth2Grant| r.risky()));
            assert((|r: OAuth2Grant| RiskyForAll.holds(r)) =~= (|r: OAuth2Grant|
                r.risky() && r.for_all()));
        }
        let risky = count_rows(all, &Risky);
        if risky == 0 {
            return None;
        }
        let mut s = count(risky);
        s.append(" grant(s) include high-risk scopes (");
        s.append(count(count_rows(all, &RiskyForAll)).as_str());
        s.append(" admin-consented for all users).");
        Some(s)
    }
}

/// The label and the colour of a kind of consent.
pub fn consent_badge(r: &OAuth2Grant) -> (b: (&'static str, &'static str))
    ensures
        (b.0@, b.1@) == if r.for_all() {
            ("Admin (all users)"@, "badge badge--warning"@)
        } else {
            ("User"@, "badge"@)
        },
        r.consent_type@ == "AllPrincipals"@ ==> b.0@ == "Admin (all users)"@ && b.1@
            == "badge badge--warning"@,
        r.consent_type@ != "AllPrincipals"@ ==> b.0@ == "User"@ && b.1@ == "badge"@,
{
    if same(r.consent_type.as_str(), "AllPrincipals") {
        ("Admin (all users)", "badge badge--warning")
    } else {
        ("User", "badge")
    }
}

/// The colour of a scope of the consent: those of high risk stand out.
pub fn scope_class(r: &OAuth2Grant, scope: &str) -> (c: &'static str)
    ensures
        c@ == if texts(r.risky_scopes@).contains(scope@) {
            "badge badge--danger"@
        } else {
            "badge"@
        },
{
    if any_same(&r.risky_scopes, scope) {
        "badge badge--danger"
    } else {
        "badge"
    }
}

/// The banner counts what its facet shows: without a search, as many rows.
pub proof fn the_banner_counts_its_facet(all: Seq<OAuth2Grant>, shown: Seq<usize>)
    requires
        all.len() <= usize::MAX,
        selects(all, |r: OAuth2Grant| is_shown(r, "risky"@, Seq::empty()), shown),
    ensures
        shown.len() == risky_grants(all),
{
    let p = |r: OAuth2Grant| is_shown(r, "risky"@, Seq::empty());
    assert(p =~= (|r: OAuth2Grant| r.risky()));
    selection_size(all, p, shown);
}

/// A row is among those shown exactly if it has a risky scope, where the facet is
/// "risky", or was given for all users, where it is "admin", and the search text
/// stands in its application, in whatever case; an empty search finds all.
pub proof fn a_consent_is_shown_by_its_facet_and_its_application(
    all: Seq<OAuth2Grant>,
    facet: Seq<char>,
    q: Seq<char>,
    shown: Seq<usize>,
    i: int,
)
    requires
        selects(all, |r: OAuth2Grant| is_shown(r, facet, q), shown),
        0 <= i < all.len() <= usize::MAX,
    ensures
        ({
            let r = all[i];
            shown.contains(i as usize) <==> (facet == "risky"@ ==> r.risky_scopes@.len() > 0) && (
            facet == "admin"@ ==> r.consent_type@ == "AllPrincipals"@) && (q.len() == 0
                || (exists|front: Seq<char>, back: Seq<char>|
            lowercase_of(r.client_display_name@) == #[trigger] (front + q + back)))
        }),
{
    lemma_facet_keys();
    what_occurs_stands_between(q, lowercase_of(all[i].client_display_name@));
    a_selection_is_exact(all, |r: OAuth2Grant| is_shown(r, facet, q), shown, i as usize, 0, 0);
}

/// What the banner counts are the consents with a risky scope, and those of them that
/// were given for all users.
pub proof fn the_banner_counts_risky_scopes(all: Seq<OAuth2Grant>)
    ensures
        risky_grants(all) == tally(all, |r: OAuth2Grant| r.risky_scopes@.len() > 0),
        risky_for_all(all) == tally(
            all,
            |r: OAuth2Grant| r.risky_scopes@.len() > 0 && r.consent_type@ == "AllPrincipals"@,
        ),
{
    assert((|r: OAuth2Grant| r.risky()) =~= (|r: OAuth2Grant| r.risky_scopes@.len() > 0));
    assert((|r: OAuth2Grant| r.risky() && r.for_all()) =~= (|r: OAuth2Grant|
        r.risky_scopes@.len() > 0 && r.consent_type@ == "AllPrincipals"@));
}

} // verus!
