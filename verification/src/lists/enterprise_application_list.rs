//! The list of enterprise applications.

use crate::lists::filters::{
    a_search_finds_its_words, active_filters, both_ends_of_the_range_are_in, created_in_range,
    filters_set, found, hit, in_range, is_hit, name_or_id, needle, row_name, EmptyList,
};
use crate::rows::{
    a_selection_is_exact, count_rows, positions, selection_size, selects, tally, RowTest,
};
use crate::text::{cat3, lowercase_of, same, trimmed, white};
use crate::time::Timestamp;
use vstd::prelude::*;
use vstd::string::*;

verus! {

/// A row of the list.
#[derive(Debug)]
pub struct EnterpriseApplicationRow {
    pub id: String,
    pub app_id: String,
    pub display_name: String,
    pub account_enabled: Option<bool>,
    pub created: Option<Timestamp>,
    pub is_foreign_tenant: bool,
    pub paired_app_registration_id: Option<String>,
}

/// A facet of the list. A row can be in two of them, or in none.
#[derive(Clone, Copy, Debug, PartialEq, Eq, Structural)]
pub enum EnterpriseFacet {
    Enabled,
    Disabled,
    Foreign,
}

/// The row is in the facet.
pub open spec fn in_facet(row: EnterpriseApplicationRow, f: EnterpriseFacet) -> bool {
    match f {
        EnterpriseFacet::Enabled => row.account_enabled == Some(true),
        EnterpriseFacet::Disabled => row.account_enabled == Some(false),
        EnterpriseFacet::Foreign => row.is_foreign_tenant,
    }
}

/// The facet that a key names. A key that names none filters nothing.
pub open spec fn facet_of(key: Seq<char>) -> Option<EnterpriseFacet> {
    if key == "enabled"@ {
        Some(EnterpriseFacet::Enabled)
    } else if key == "disabled"@ {
        Some(EnterpriseFacet::Disabled)
    } else if key == "foreign"@ {
        Some(EnterpriseFacet::Foreign)
    } else {
        None
    }
}

fn facet(key: &str) -> (r: Option<EnterpriseFacet>)
    ensures
        r == facet_of(key@),
{
    if same(key, "enabled") {
        Some(EnterpriseFacet::Enabled)
    } else if same(key, "disabled") {
        Some(EnterpriseFacet::Disabled)
    } else if same(key, "foreign") {
        Some(EnterpriseFacet::Foreign)
    } else {
        None
    }
}

/// The row passes search and creation range. By name alone.
pub open spec fn in_base(
    row: EnterpriseApplicationRow,
    search: Seq<char>,
    after: Option<i64>,
    before: Option<i64>,
) -> bool {
    hit(row.display_name@, search) && in_range(row.created, after, before)
}

/// The row passes search and range, and is in the facet, if there is one.
pub open spec fn passes(
    row: EnterpriseApplicationRow,
    search: Seq<char>,
    f: Option<EnterpriseFacet>,
    after: Option<i64>,
    before: Option<i64>,
) -> bool {
    in_base(row, search, after, before) && (f matches Some(x) ==> in_facet(row, x))
}

struct PassTest {
    needle: Option<String>,
    facet: Option<EnterpriseFacet>,
    after: Option<i64>,
    before: Option<i64>,
}

impl RowTest<EnterpriseApplicationRow> for PassTest {
    closed spec fn holds(&self, row: EnterpriseApplicationRow) -> bool {
        &&& found(row.display_name@, self.needle)
        &&& in_range(row.created, self.after, self.before)
        &&& self.facet matches Some(f) ==> in_facet(row, f)
    }

    fn test(&self, row: &EnterpriseApplicationRow) -> (r: bool) {
        is_hit(row.display_name.as_str(), &self.needle) && created_in_range(
            row.created,
            self.after,
            self.before,
        ) && match self.facet {
            Some(EnterpriseFacet::Enabled) => match row.account_enabled {
                Some(b) => b,
                None => false,
            },
            Some(EnterpriseFacet::Disabled) => match row.account_enabled {
                Some(b) => !b,
                None => false,
            },
            Some(EnterpriseFacet::Foreign) => row.is_foreign_tenant,
            None => true,
        }
    }
}

/// The loaded list, filtered. What is shown is what is exported.
#[derive(Debug)]
pub struct LoadedEnterpriseApps {
    pub total: usize,
    pub base_total: usize,
    pub enabled: usize,
    pub disabled: usize,
    pub foreign: usize,
    pub shown: Vec<usize>,
}

impl LoadedEnterpriseApps {
    /// The list backs these filters.
    pub open spec fn describes(
        self,
        items: Seq<EnterpriseApplicationRow>,
        list: EnterpriseApplicationList,
        search: Seq<char>,
        key: Seq<char>,
    ) -> bool {
        let (after, before) = (list.created_after, list.created_before);
        let rows_in = |f: Option<EnterpriseFacet>|
            tally(items, |r: EnterpriseApplicationRow| passes(r, search, f, after, before));
        &&& self.total == items.len()
        &&& self.base_total == rows_in(None)
        &&& self.enabled == rows_in(Some(EnterpriseFacet::Enabled))
        &&& self.disabled == rows_in(Some(EnterpriseFacet::Disabled))
        &&& self.foreign == rows_in(Some(EnterpriseFacet::Foreign))
        &&& selects(
            items,
            |r: EnterpriseApplicationRow| passes(r, search, facet_of(key), after, before),
            self.shown@,
        )
    }
}

/// The state of the view. Search and facet come from the session.
#[derive(Debug)]
pub struct EnterpriseApplicationList {
    /// The ends of the range of creation dates, in days from the first of 1970.
    pub created_after: Option<i64>,
    pub created_before: Option<i64>,
    pub filters_open: bool,
    pub refreshing: bool,
}

/// The page of the enterprise applications is its list.
pub type EnterpriseApplicationsView = EnterpriseApplicationList;

impl EnterpriseApplicationList {
    /// No filter, the drawer closed.
    pub fn new() -> (r: EnterpriseApplicationList)
        ensures
            r.created_after is None,
            r.created_before is None,
            !r.filters_open,
            !r.refreshing,
    {
        EnterpriseApplicationList {
            created_after: None,
            created_before: None,
            filters_open: false,
            refreshing: false,
        }
    }

    /// A link that set the facet asks for an open drawer, so that the facet is
    /// seen. The request is used once.
    pub fn take_open_request(&mut self, pending: &mut bool)
        ensures
            !*final(pending),
            *final(self) == (EnterpriseApplicationList {
                filters_open: old(self).filters_open || *old(pending),
                ..*old(self)
            }),
    {
        if *pending {
            self.filters_open = true;
            *pending = false;
        }
    }

    /// How many filters are set, the search not counted.
    pub fn active_filters(&self, key: &str) -> (r: usize)
        ensures
            r == filters_set(key@ != "all"@, self.created_after, self.created_before),
    {
        active_filters(!same(key, "all"), self.created_after, self.created_before)
    }

    /// "Refresh". Returns whether to load again.
    pub fn on_refresh(&mut self, tenant: &Option<String>) -> (r: bool)
        ensures
            r == tenant is Some,
            *final(self) == (EnterpriseApplicationList {
                refreshing: old(self).refreshing || tenant is Some,
                ..*old(self)
            }),
    {
        if tenant.is_none() {
            return false;
        }
        self.refreshing = true;
        true
    }

    /// A load has ended, however it did.
    pub fn load_ended(&mut self)
        ensures
            *final(self) == (EnterpriseApplicationList { refreshing: false, ..*old(self) }),
    {
        self.refreshing = false;
    }

    fn count_facet(
        &self,
        items: &[EnterpriseApplicationRow],
        search: &str,
        f: Option<EnterpriseFacet>,
    ) -> (r: usize)
        ensures
            r == tally(
                items@,
                |r: EnterpriseApplicationRow|
                    passes(r, search@, f, self.created_after, self.created_before),
            ),
    {
        let t = PassTest {
            needle: needle(search),
            facet: f,
            after: self.created_after,
            before: self.created_before,
        };
        let r = count_rows(items, &t);
        proof {
            assert((|row: EnterpriseApplicationRow| t.holds(row)) =~= (|
                r: EnterpriseApplicationRow,
            |
                passes(r, search@, f, self.created_after, self.created_before)));
        }
        r
    }

    /// The list as it is shown, filtered in memory.
    pub fn loaded(&self, items: &[EnterpriseApplicationRow], search: &str, key: &str) -> (r:
        LoadedEnterpriseApps)
        ensures
            r.describes(items@, *self, search@, key@),
    {
        let t = PassTest {
            needle: needle(search),
            facet: facet(key),
            after: self.created_after,
            before: self.created_before,
        };
        let shown = positions(items, &t);
        proof {
            assert((|row: EnterpriseApplicationRow| t.holds(row)) =~= (|
                r: EnterpriseApplicationRow,
            |
                passes(r, search@, facet_of(key@), self.created_after, self.created_before)));
        }
        LoadedEnterpriseApps {
            total: items.len(),
            base_total: self.count_facet(items, search, None),
            enabled: self.count_facet(items, search, Some(EnterpriseFacet::Enabled)),
            disabled: self.count_facet(items, search, Some(EnterpriseFacet::Disabled)),
            foreign: self.count_facet(items, search, Some(EnterpriseFacet::Foreign)),
            shown,
        }
    }
}

/// A chip's count is the number of rows that clicking it shows.
pub proof fn a_chip_keeps_its_word(
    items: Seq<EnterpriseApplicationRow>,
    list: EnterpriseApplicationList,
    search: Seq<char>,
    before: Seq<char>,
    l: LoadedEnterpriseApps,
    key: Seq<char>,
    after_click: LoadedEnterpriseApps,
)
    requires
        items.len() <= usize::MAX,
        l.describes(items, list, search, before),
        after_click.describes(items, list, search, key),
    ensures
        after_click.shown@.len() == match facet_of(key) {
            None => l.base_total,
            Some(EnterpriseFacet::Enabled) => l.enabled,
            Some(EnterpriseFacet::Disabled) => l.disabled,
            Some(EnterpriseFacet::Foreign) => l.foreign,
        },
{
    let p = |r: EnterpriseApplicationRow|
        passes(r, search, facet_of(key), list.created_after, list.created_before);
    selection_size(items, p, after_click.shown@);
}

/// What a row of the list shows.
#[derive(Debug)]
pub struct EnterpriseRow {
    pub name: String,
    /// The name of the row, for those who hear it.
    pub row_label: String,
    pub foreign: bool,
}

/// What a row of the list shows.
pub fn view_row(row: &EnterpriseApplicationRow) -> (r: EnterpriseRow)
    ensures
        r.name == row_name(row.display_name, row.app_id),
        r.row_label@ == row_name(row.display_name, row.app_id)@ + " ("@ + row.app_id@ + ")"@,
        r.foreign == row.is_foreign_tenant,
{
    let name = name_or_id(&row.display_name, &row.app_id);
    let mut row_label = cat3(name.as_str(), " (", row.app_id.as_str());
    row_label.append(")");
    EnterpriseRow { name, row_label, foreign: row.is_foreign_tenant }
}

/// The words in place of an empty list: title and text. Where the tenant has no
/// enterprise application at all, making one is offered.
pub fn empty_words(e: EmptyList) -> (r: (&'static str, &'static str))
    ensures
        (r.0@, r.1@) == match e {
            EmptyList::NoneYet => (
                "No enterprise applications yet"@,
                "Add one from the gallery in the portal, or start a new SSO application here."@,
            ),
            EmptyList::NoMatch => (
                "No matching enterprise applications"@,
                "Try a broader search term or clear the filters."@,
            ),
        },
{
    match e {
        EmptyList::NoneYet => (
            "No enterprise applications yet",
            "Add one from the gallery in the portal, or start a new SSO application here.",
        ),
        EmptyList::NoMatch => (
            "No matching enterprise applications",
            "Try a broader search term or clear the filters.",
        ),
    }
}

/// An application is shown exactly if its name holds the words searched for, it was
/// created within the range, the day of either end included, and it is in the facet:
/// enabled or disabled by its account, foreign by its tenant, and every other key
/// lets all of them pass.
pub proof fn a_row_is_shown_by_its_name_its_day_and_its_facet(
    items: Seq<EnterpriseApplicationRow>,
    list: EnterpriseApplicationList,
    search: Seq<char>,
    key: Seq<char>,
    l: LoadedEnterpriseApps,
    i: usize,
)
    requires
        l.describes(items, list, search, key),
        i < items.len(),
    ensures
        l.shown@.contains(i) <==> {
            let row = items[i as int];
            &&& (forall|k: int| 0 <= k < search.len() ==> white(#[trigger] search[k]))
                || exists|front: Seq<char>, back: Seq<char>|
                lowercase_of(row.display_name@) == #[trigger] (front + lowercase_of(trimmed(search))
                    + back)
            &&& list.created_after matches Some(d) ==> row.created matches Some(t) && d
                * 86_400_000_000_000 <= t@
            &&& list.created_before matches Some(d) ==> row.created matches Some(t) && t@ < (d + 1)
                * 86_400_000_000_000
            &&& key == "enabled"@ ==> row.account_enabled == Some(true)
            &&& key == "disabled"@ ==> row.account_enabled == Some(false)
            &&& key == "foreign"@ ==> row.is_foreign_tenant
        },
{
    let row = items[i as int];
    both_ends_of_the_range_are_in(row.created, list.created_after, list.created_before);
    a_search_finds_its_words(row.display_name@, search);
    lemma_facet_keys();
    let p = |r: EnterpriseApplicationRow|
        passes(r, search, facet_of(key), list.created_after, list.created_before);
    a_selection_is_exact(items, p, l.shown@, i, 0, 0);
}

proof fn lemma_facet_keys()
    ensures
        "enabled"@ != "disabled"@,
        "enabled"@ != "foreign"@,
        "disabled"@ != "foreign"@,
        "all"@ != "enabled"@,
        "all"@ != "disabled"@,
        "all"@ != "foreign"@,
{
    reveal_strlit("enabled");
    reveal_strlit("disabled");
    reveal_strlit("foreign");
    reveal_strlit("all");
    assert("enabled"@.len() == 7);
    assert("disabled"@.len() == 8);
    assert("foreign"@.len() == 7);
    assert("all"@.len() == 3);
    assert("enabled"@[0] == 'e');
    assert("foreign"@[0] == 'f');
}

/// Each chip counts the rows that its own key shows.
pub proof fn each_chip_counts_its_own_key(
    items: Seq<EnterpriseApplicationRow>,
    list: EnterpriseApplicationList,
    search: Seq<char>,
    before: Seq<char>,
    l: LoadedEnterpriseApps,
    key: Seq<char>,
    after_click: LoadedEnterpriseApps,
)
    requires
        items.len() <= usize::MAX,
        l.describes(items, list, search, before),
        after_click.describes(items, list, search, key),
    ensures
        l.total == items.len(),
        key == "all"@ ==> after_click.shown@.len() == l.base_total,
        key == "enabled"@ ==> after_click.shown@.len() == l.enabled,
        key == "disabled"@ ==> after_click.shown@.len() == l.disabled,
        key == "foreign"@ ==> after_click.shown@.len() == l.foreign,
{
    lemma_facet_keys();
    a_chip_keeps_its_word(items, list, search, before, l, key, after_click);
}

} // verus!
