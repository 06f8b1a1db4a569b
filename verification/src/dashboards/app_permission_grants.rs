//! The permissions that applications hold as themselves, with no user signed in.

use crate::rows::{
    a_selection_is_exact, count_rows, positions, selection_size, selects, tally, RowTest,
};
use crate::session::Selection;
use crate::text::{
    contains_ignore_case, count, decimal, lowercase_of, occurs_in, same, what_occurs_stands_between,
};
use vstd::prelude::*;
use vstd::string::*;

verus! {

/// A permission that an application holds.
#[derive(Debug)]
pub struct AppPermissionGrant {
    pub client_sp_id: String,
    pub client_display_name: String,
    pub permission: String,
    pub resource_display_name: String,
    pub risk: String,
}

impl AppPermissionGrant {
    /// The risk of the grant is this one.
    pub open spec fn risks(self, level: Seq<char>) -> bool {
        self.risk@ == level
    }
}

proof fn lemma_risk_keys()
    ensures
        "high"@ != "medium"@,
{
    reveal_strlit("high");
    reveal_strlit("medium");
    assert("high"@.len() == 4);
    assert("medium"@.len() == 6);
}

/// The label and the colour of a risk.
pub open spec fn risk_words(risk: Seq<char>) -> (Seq<char>, Seq<char>) {
    if risk == "high"@ {
        ("High"@, "badge badge--danger"@)
    } else if risk == "medium"@ {
        ("Medium"@, "badge badge--warning"@)
    } else {
        ("Low"@, "badge"@)
    }
}

/// The label and the colour of the risk of a grant.
pub fn risk_badge(r: &AppPermissionGrant) -> (b: (&'static str, &'static str))
    ensures
        (b.0@, b.1@) == risk_words(r.risk@),
        r.risk@ == "high"@ ==> b.0@ == "High"@ && b.1@ == "badge badge--danger"@,
        r.risk@ == "medium"@ ==> b.0@ == "Medium"@ && b.1@ == "badge badge--warning"@,
        r.risk@ != "high"@ && r.risk@ != "medium"@ ==> b.0@ == "Low"@ && b.1@ == "badge"@,
{
    if same(r.risk.as_str(), "high") {
        proof {
            lemma_risk_keys();
        }
        ("High", "badge badge--danger")
    } else if same(r.risk.as_str(), "medium") {
        ("Medium", "badge badge--warning")
    } else {
        ("Low", "badge")
    }
}

/// The grant is in the facet; a key that names none filters nothing.
pub open spec fn in_facet(r: AppPermissionGrant, facet: Seq<char>) -> bool {
    if facet == "high"@ {
        r.risks("high"@)
    } else if facet == "medium"@ {
        r.risks("medium"@)
    } else {
        true
    }
}

/// Whether the grant is in the facet.
pub fn matches_facet(r: &AppPermissionGrant, facet: &str) -> (b: bool)
    ensures
        b == in_facet(*r, facet@),
        facet@ == "high"@ ==> b == (r.risk@ == "high"@),
        facet@ == "medium"@ ==> b == (r.risk@ == "medium"@),
        facet@ != "high"@ && facet@ != "medium"@ ==> b,
{
    proof {
        lemma_risk_keys();
    }
    if same(facet, "high") {
        same(r.risk.as_str(), "high")
    } else if same(facet, "medium") {
        same(r.risk.as_str(), "medium")
    } else {
        true
    }
}

/// The search finds the grant: by application, by permission or by resource.
pub open spec fn in_query(r: AppPermissionGrant, q: Seq<char>) -> bool {
    ||| occurs_in(q, lowercase_of(r.client_display_name@))
    ||| occurs_in(q, lowercase_of(r.permission@))
    ||| occurs_in(q, lowercase_of(r.resource_display_name@))
}

/// Whether the search finds the grant.
pub fn matches_query(r: &AppPermissionGrant, q: &str) -> (b: bool)
    ensures
        b == in_query(*r, q@),
{
    contains_ignore_case(r.client_display_name.as_str(), q) || contains_ignore_case(
        r.permission.as_str(),
        q,
    ) || contains_ignore_case(r.resource_display_name.as_str(), q)
}

/// The grant is shown under facet and search; an empty search finds all.
pub open spec fn is_shown(r: AppPermissionGrant, facet: Seq<char>, q: Seq<char>) -> bool {
    in_facet(r, facet) && (q.len() == 0 || in_query(r, q))
}

struct Shown<'a> {
    facet: &'a str,
    q: &'a str,
}

impl<'a> RowTest<AppPermissionGrant> for Shown<'a> {
    closed spec fn holds(&self, row: AppPermissionGrant) -> bool {
        is_shown(row, self.facet@, self.q@)
    }

    fn test(&self, row: &AppPermissionGrant) -> (r: bool) {
        matches_facet(row, self.facet) && (self.q.is_empty() || matches_query(row, self.q))
    }
}

pub(crate) struct HighRisk;

impl RowTest<AppPermissionGrant> for HighRisk {
    open spec fn holds(&self, row: AppPermissionGrant) -> bool {
        row.risks("high"@)
    }

    fn test(&self, row: &AppPermissionGrant) -> (r: bool) {
        same(row.risk.as_str(), "high")
    }
}

/// How many grants are of high risk.
pub open spec fn high_grants(all: Seq<AppPermissionGrant>) -> nat {
    tally(all, |r: AppPermissionGrant| r.risks("high"@))
}

/// Counts the grants of high risk.
pub fn count_high(all: &[AppPermissionGrant]) -> (r: usize)
    ensures
        r == high_grants(all@),
        r == tally(all@, |r: AppPermissionGrant| r.risk@ == "high"@),
{
    proof {
        assert((|r: AppPermissionGrant| r.risk@ == "high"@) =~= (|r: AppPermissionGrant|
            r.risks("high"@)));
    }
    proof {
        assert((|r: AppPermissionGrant| HighRisk.holds(r)) =~= (|r: AppPermissionGrant|
            r.risks("high"@)));
    }
    count_rows(all, &HighRisk)
}

/// The applications that hold a grant of high risk.
pub open spec fn high_holders(all: Seq<AppPermissionGrant>) -> Set<Seq<char>>
    decreases all.len(),
{
    if all.len() == 0 {
        Set::empty()
    } else if all.last().risks("high"@) {
        high_holders(all.drop_last()).insert(all.last().client_sp_id@)
    } else {
        high_holders(all.drop_last())
    }
}

fn count_holders(all: &[AppPermissionGrant]) -> (r: usize)
    ensures
        r == high_holders(all@).len(),
{
    let mut holders = Selection::new();
    proof {
        assert(all@.take(0) =~= Seq::empty());
    }
    for k in 0..all.len()
        invariant
            holders@ == high_holders(all@.take(k as int)),
    {
        proof {
            assert(all@.take(k as int + 1).drop_last() =~= all@.take(k as int));
            assert(all@.take(k as int + 1).last() == all@[k as int]);
        }
        let ghost before = holders@;
        if same(all[k].risk.as_str(), "high") && !holders.contains(all[k].client_sp_id.as_str()) {
            holders.toggle(all[k].client_sp_id.as_str());
        }
        proof {
            if all@[k as int].risks("high"@) {
                assert(holders@ =~= before.insert(all@[k as int].client_sp_id@));
            }
        }
    }
    proof {
        assert(all@.take(all@.len() as int) =~= all@);
    }
    holders.len()
}

/// The view.
#[derive(Debug)]
pub struct AppPermissionGrantsView {}

impl AppPermissionGrantsView {
    /// The rows that are shown under facet and search, in the order of the load.
    pub fn rows(all: &[AppPermissionGrant], facet: &str, q: &str) -> (r: Vec<usize>)
        ensures
            selects(all@, |r: AppPermissionGrant| is_shown(r, facet@, q@), r@),
    {
        let t = Shown { facet, q };
        let r = positions(all, &t);
        proof {
            assert((|r: AppPermissionGrant| t.holds(r)) =~= (|r: AppPermissionGrant|
                is_shown(r, facet@, q@)));
        }
        r
    }

    /// The warning above the table; none where nothing is of high risk.
    pub fn banner(all: &[AppPermissionGrant]) -> (r: Option<String>)
        ensures
            r is Some <==> high_grants(all@) > 0,
            r matches Some(t) ==> t@ == decimal(high_grants(all@))
                + " high-risk application permission(s) held by "@ + decimal(
                high_holders(all@).len(),
            )
                + " app(s). These grant tenant-wide access with no signed-in user."@,
    {
        let high = count_high(all);
        if high == 0 {
            return None;
        }
        let mut s = count(high);
        s.append(" high-risk application permission(s) held by ");
        s.append(count(count_holders(all)).as_str());
        s.append(" app(s). These grant tenant-wide access with no signed-in user.");
        Some(s)
    }
}

/// The banner counts what its facet shows: without a search, as many rows.
pub proof fn the_banner_counts_its_facet(all: Seq<AppPermissionGrant>, shown: Seq<usize>)
    requires
        all.len() <= usize::MAX,
        selects(all, |r: AppPermissionGrant| is_shown(r, "high"@, Seq::empty()), shown),
    ensures
        shown.len() == high_grants(all),
{
    let p = |r: AppPermissionGrant| is_shown(r, "high"@, Seq::empty());
    assert(p =~= (|r: AppPermissionGrant| r.risks("high"@)));
    selection_size(all, p, shown);
}

/// A row is among those shown exactly if its risk is the one of the facet, where the
/// facet is "high" or "medium", and the search text stands in its application, its
/// permission or its resource, in whatever case; an empty search finds all.
pub proof fn a_grant_is_shown_by_its_risk_and_its_words(
    all: Seq<AppPermissionGrant>,
    facet: Seq<char>,
    q: Seq<char>,
    shown: Seq<usize>,
    i: int,
)
    requires
        selects(all, |r: AppPermissionGrant| is_shown(r, facet, q), shown),
        0 <= i < all.len() <= usize::MAX,
    ensures
        ({
            let r = all[i];
            shown.contains(i as usize) <==> (facet == "high"@ ==> r.risk@ == "high"@) && (facet
                == "medium"@ ==> r.risk@ == "medium"@) && (q.len() == 0
                || (exists|front: Seq<char>, back: Seq<char>|
            lowercase_of(r.client_display_name@) == #[trigger] (front + q + back))
                || (exists|front: Seq<char>, back: Seq<char>|
            lowercase_of(r.permission@) == #[trigger] (front + q + back))
                || (exists|front: Seq<char>, back: Seq<char>|
            lowercase_of(r.resource_display_name@) == #[trigger] (front + q + back)))
        }),
{
    let r = all[i];
    lemma_risk_keys();
    what_occurs_stands_between(q, lowercase_of(r.client_display_name@));
    what_occurs_stands_between(q, lowercase_of(r.permission@));
    what_occurs_stands_between(q, lowercase_of(r.resource_display_name@));
    a_selection_is_exact(all, |r: AppPermissionGrant| is_shown(r, facet, q), shown, i as usize, 0, 0);
}

/// The holders are those that hold a grant of high risk, each of them once.
pub proof fn a_holder_holds_a_grant_of_high_risk(all: Seq<AppPermissionGrant>, id: Seq<char>)
    ensures
        high_holders(all).contains(id) <==> exists|k: int|
            0 <= k < all.len() && (#[trigger] all[k]).risk@ == "high"@ && all[k].client_sp_id@ == id,
        high_holders(all).finite(),
    decreases all.len(),
{
    if all.len() > 0 {
        let rest = all.drop_last();
        let n = all.len() - 1;
        a_holder_holds_a_grant_of_high_risk(rest, id);
        assert(forall|k: int| 0 <= k < n ==> rest[k] == #[trigger] all[k]);
        assert(all[n] == all.last());
        if high_holders(rest).contains(id) {
            let k = choose|k: int|
                0 <= k < rest.len() && (#[trigger] rest[k]).risk@ == "high"@
                    && rest[k].client_sp_id@ == id;
            assert(all[k] == rest[k]);
        }
        if exists|k: int|
            0 <= k < all.len() && (#[trigger] all[k]).risk@ == "high"@ && all[k].client_sp_id@ == id {
            let k = choose|k: int|
                0 <= k < all.len() && (#[trigger] all[k]).risk@ == "high"@ && all[k].client_sp_id@
                    == id;
            if k < n {
                assert(rest[k] == all[k]);
            }
        }
    }
}

} // verus!
