//! The permissions that applications hold as themselves: the short table, which
//! is searched by application alone.

use crate::dashboards::app_permission_grants::{count_high, high_grants, AppPermissionGrant};
use crate::rows::{a_selection_is_exact, positions, selects, RowTest};
use crate::text::{
    contains_ignore_case, count, decimal, lowercase_of, occurs_in, same, what_occurs_stands_between,
};
use vstd::prelude::*;
use vstd::string::*;

verus! {

/// The grant is in the facet; a key that names none filters nothing.
pub open spec fn in_facet(r: AppPermissionGrant, facet: Seq<char>) -> bool {
    facet == "high"@ ==> r.risks("high"@)
}

/// Whether the grant is in the facet.
pub fn matches_facet(r: &AppPermissionGrant, facet: &str) -> (b: bool)
    ensures
        b == in_facet(*r, facet@),
        facet@ == "high"@ ==> b == (r.risk@ == "high"@),
        facet@ != "high"@ ==> b,
{
    !same(facet, "high") || same(r.risk.as_str(), "high")
}

/// The grant is shown under facet and search; an empty search finds all.
pub open spec fn is_shown(r: AppPermissionGrant, facet: Seq<char>, q: Seq<char>) -> bool {
    in_facet(r, facet) && (q.len() == 0 || occurs_in(q, lowercase_of(r.client_display_name@)))
}

struct Shown<'a> {
    facet: &'a str,
    q: &'a str,
}

impl<'a> RowTest<AppPermissionGrant> for Shown<'a> {
    closed spec fn holds(&self, row: AppPermissionGrant) -> bool {
        is_shown(row, self.facet@, self.q@)
    }

    fn test(&self, row: &AppPermissionGrant) -> (r: bool) {
        matches_facet(row, self.facet) && (self.q.is_empty() || contains_ignore_case(
            row.client_display_name.as_str(),
            self.q,
        ))
    }
}

/// The view.
#[derive(Debug)]
pub struct AppPermissionsView {}

impl AppPermissionsView {
    /// The rows that are shown under facet and search, in the order of the load.
    pub fn rows(all: &[AppPermissionGrant], facet: &str, q: &str) -> (r: Vec<usize>)
        ensures
            selects(all@, |r: AppPermissionGrant| is_shown(r, facet@, q@), r@),
    {
        let t = Shown { facet, q };
        let r = positions(all, &t);
        proof {
            assert((|r: AppPermissionGrant| t.holds(r)) =~= (|r: AppPermissionGrant|
                is_shown(r, facet@, q@)));
        }
        r
    }

    /// The warning above the table; none where nothing is of high risk.
    pub fn banner(all: &[AppPermissionGrant]) -> (r: Option<String>)
        ensures
            r is Some <==> high_grants(all@) > 0,
            r matches Some(t) ==> t@ == decimal(high_grants(all@))
                + " high-risk application permission grant(s) — these run app-only, without a user."@,
    {
        let high = count_high(all);
        if high == 0 {
            return None;
        }
        let mut s = count(high);
        s.append(
            " high-risk application permission grant(s) — these run app-only, without a user.",
        );
        Some(s)
    }
}

/// A row is among those shown exactly if its risk is high, where the facet is "high",
/// and the search text stands in its application, in whatever case; an empty search
/// finds all.
pub proof fn a_grant_is_shown_by_its_risk_and_its_application(
    all: Seq<AppPermissionGrant>,
    facet: Seq<char>,
    q: Seq<char>,
    shown: Seq<usize>,
    i: int,
)
    requires
        selects(all, |r: AppPermissionGrant| is_shown(r, facet, q), shown),
        0 <= i < all.len() <= usize::MAX,
    ensures
        ({
            let r = all[i];
            shown.contains(i as usize) <==> (facet == "high"@ ==> r.risk@ == "high"@) && (q.len()
                == 0 || (exists|front: Seq<char>, back: Seq<char>|
            lowercase_of(r.client_display_name@) == #[trigger] (front + q + back)))
        }),
{
    what_occurs_stands_between(q, lowercase_of(all[i].client_display_name@));
    a_selection_is_exact(all, |r: AppPermissionGrant| is_shown(r, facet, q), shown, i as usize, 0, 0);
}

} // verus!
