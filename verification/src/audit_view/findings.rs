//! The findings pane: one expandable panel per finding, at most one open, with
//! the fix that belongs to it.

use crate::audit::{AuditItem, BulkAction};
use crate::audit_view::groups::{
    bulk_fixes, group_bulk_actions, tone, tone_of, FindingGroup, GroupSection,
};
use crate::audit_view::table::{eligible, eligible_ids};
use crate::rows::{positions, selects, RowTest};
use crate::session::{holds_text, is_text, Selection};
use crate::text::{count, decimal, same, texts};
use crate::window::{drawn, MoreRows, RowWindow, RENDER_PAGE};
use vstd::prelude::*;
use vstd::string::*;

verus! {

/// What the findings pane is set to.
#[derive(Debug)]
pub struct FindingsPane {
    /// The key of the open panel.
    pub expanded: Option<String>,
    pub selection: Selection,
    pub window: RowWindow,
    pub healthy_open: bool,
}

/// The pane after another panel was opened or the open one closed: the
/// selection belongs to the panel, and so does the window.
pub open spec fn expansion_changed(
    before: FindingsPane,
    after: FindingsPane,
    expanded: Option<Seq<char>>,
) -> bool {
    &&& after.expanded is Some <==> expanded is Some
    &&& expanded matches Some(k) ==> is_text(after.expanded, k)
    &&& after.selection@ == Set::<Seq<char>>::empty()
    &&& after.window.limit == RENDER_PAGE
    &&& after.healthy_open == before.healthy_open
}

impl FindingsPane {
    /// Every panel closed, nothing selected.
    pub fn new() -> (r: FindingsPane)
        ensures
            r.expanded is None,
            r.selection@ == Set::<Seq<char>>::empty(),
            r.window.limit == RENDER_PAGE,
            !r.healthy_open,
    {
        FindingsPane {
            expanded: None,
            selection: Selection::new(),
            window: RowWindow::new(),
            healthy_open: false,
        }
    }

    /// The panel of the finding `key` is open.
    pub open spec fn shows(self, key: Seq<char>) -> bool {
        is_text(self.expanded, key)
    }

    /// Whether the panel of the finding `key` is open.
    pub fn is_open(&self, key: &str) -> (r: bool)
        ensures
            r == self.shows(key@),
            r <==> self.expanded is Some && self.expanded->0@ == key@,
    {
        holds_text(&self.expanded, key)
    }

    /// A click on the head of a panel: it opens, and the open one closes.
    pub fn toggle(&mut self, key: &str)
        ensures
            expansion_changed(
                *old(self),
                *final(self),
                if old(self).shows(key@) {
                    None
                } else {
                    Some(key@)
                },
            ),
            old(self).expanded is Some && old(self).expanded->0@ == key@
                ==> final(self).expanded is None
                && final(self).selection@ == Set::<Seq<char>>::empty(),
            !(old(self).expanded is Some && old(self).expanded->0@ == key@)
                ==> final(self).expanded is Some && final(self).expanded->0@ == key@
                && final(self).selection@ == Set::<Seq<char>>::empty() && final(self).window.limit
                == 200 && final(self).healthy_open == old(self).healthy_open,
    {
        if self.is_open(key) {
            self.expanded = None;
        } else {
            self.expanded = Some(key.to_owned());
        }
        self.selection.clear();
        self.window.reset();
    }

    /// Opens the panel of a finding from elsewhere; nothing changes if it is
    /// open already.
    pub fn open(&mut self, key: &str)
        ensures
            old(self).shows(key@) ==> *final(self) == *old(self),
            !old(self).shows(key@) ==> expansion_changed(*old(self), *final(self), Some(key@)),
            old(self).expanded is Some && old(self).expanded->0@ == key@ ==> *final(self)
                == *old(self),
            !(old(self).expanded is Some && old(self).expanded->0@ == key@)
                ==> final(self).expanded is Some && final(self).expanded->0@ == key@
                && final(self).selection@ == Set::<Seq<char>>::empty() && final(self).window.limit
                == 200 && final(self).healthy_open == old(self).healthy_open,
    {
        if !self.is_open(key) {
            self.toggle(key);
        }
    }

    /// Opens or closes the healthy section.
    pub fn toggle_healthy(&mut self)
        ensures
            *final(self) == (FindingsPane { healthy_open: !old(self).healthy_open, ..*old(self) }),
    {
        self.healthy_open = !self.healthy_open;
    }

    /// A click on a row's checkbox.
    pub fn toggle_selected(&mut self, id: &str)
        ensures
            final(self).selection@ == if old(self).selection@.contains(id@) {
                old(self).selection@.remove(id@)
            } else {
                old(self).selection@.insert(id@)
            },
            *final(self) == (FindingsPane { selection: final(self).selection, ..*old(self) }),
    {
        self.selection.toggle(id);
    }

    /// "Fix all" selects every row of the open panel that a bulk fix may act
    /// on. Without such a row nothing changes. A panel that was not open is only
    /// opened: a selection made for it would go with the one of the panel that
    /// closes.
    pub fn fix_all(&mut self, key: &str, ids: &Vec<String>)
        ensures
            ids@.len() == 0 ==> *final(self) == *old(self),
            ids@.len() > 0 && old(self).shows(key@) ==> final(self).selection@ == texts(
                ids@,
            ).to_set() && *final(self) == (FindingsPane {
                selection: final(self).selection,
                ..*old(self)
            }),
            ids@.len() > 0 && !old(self).shows(key@) ==> expansion_changed(
                *old(self),
                *final(self),
                Some(key@),
            ),
            ids@.len() > 0 && old(self).expanded is Some && old(self).expanded->0@ == key@ ==> final(
                self).selection@ == texts(ids@).to_set() && final(self).expanded == old(
                self).expanded,
            ids@.len() > 0 && !(old(self).expanded is Some && old(self).expanded->0@ == key@)
                ==> final(self).expanded is Some && final(self).expanded->0@ == key@
                && final(self).selection@ == Set::<Seq<char>>::empty() && final(self).window.limit
                == 200 && final(self).healthy_open == old(self).healthy_open,
    {
        if ids.len() == 0 {
            return;
        }
        if self.is_open(key) {
            self.selection = Selection::of(ids);
        } else {
            self.toggle(key);
        }
    }

    /// "Show more" in the open panel.
    pub fn show_more(&mut self)
        requires
            old(self).window.limit <= usize::MAX - RENDER_PAGE,
        ensures
            *final(self) == (FindingsPane {
                window: RowWindow { limit: (old(self).window.limit + RENDER_PAGE) as usize },
                ..*old(self)
            }),
    {
        self.window.grow();
    }
}

/// The groups of a section, by position.
struct InSection {
    healthy: bool,
}

/// The group is shown in the section: a healthy group always, an actionable
/// one only while it affects somebody.
pub open spec fn in_section(g: FindingGroup, healthy: bool) -> bool {
    if healthy {
        g.spec.section is Healthy
    } else {
        g.spec.section is Actionable && g.item_indices@.len() > 0
    }
}

impl RowTest<FindingGroup> for InSection {
    closed spec fn holds(&self, row: FindingGroup) -> bool {
        in_section(row, self.healthy)
    }

    fn test(&self, row: &FindingGroup) -> (r: bool) {
        if self.healthy {
            matches!(row.spec.section, GroupSection::Healthy)
        } else {
            matches!(row.spec.section, GroupSection::Actionable) && row.item_indices.len() > 0
        }
    }
}

/// The positions of the groups that a section shows.
pub fn section_groups(groups: &Vec<FindingGroup>, healthy: bool) -> (r: Vec<usize>)
    ensures
        selects(groups@, |g: FindingGroup| in_section(g, healthy), r@),
{
    let t = InSection { healthy };
    let r = positions(groups.as_slice(), &t);
    proof {
        assert((|g: FindingGroup| t.holds(g)) =~= (|g: FindingGroup| in_section(g, healthy)));
    }
    r
}

/// Some actionable group affects somebody.
pub open spec fn any_findings(groups: Seq<FindingGroup>) -> bool {
    exists|k: int| 0 <= k < groups.len() && in_section(#[trigger] groups[k], false)
}

/// Whether there is nothing to fix.
pub fn nothing_to_fix(groups: &Vec<FindingGroup>) -> (r: bool)
    ensures
        r == !any_findings(groups@),
        r <==> forall|k: int|
            0 <= k < groups@.len() && (#[trigger] groups@[k]).spec.section is Actionable
                ==> groups@[k].item_indices@.len() == 0,
{
    for k in 0..groups.len()
        invariant
            forall|j: int| 0 <= j < k ==> !in_section(#[trigger] groups@[j], false),
    {
        if matches!(groups[k].spec.section, GroupSection::Actionable)
            && groups[k].item_indices.len() > 0 {
            assert(in_section(groups@[k as int], false));
            return false;
        }
    }
    true
}

/// One panel, as it is drawn.
#[derive(Debug)]
pub struct GroupPanel {
    pub open: bool,
    pub class: &'static str,
    pub tone: &'static str,
    pub chevron: &'static str,
    pub count_label: String,
    /// The bulk fixes on offer; none in a healthy group.
    pub bulk: Vec<BulkAction>,
    /// The ids that a bulk fix may act on.
    pub eligible: Vec<String>,
    /// The button that selects them all, on the open panel only.
    pub fix_all: Option<String>,
    /// The line of the select-all bar; none in a healthy group.
    pub select_label: Option<String>,
    /// Says that the sign-in report was missing.
    pub report_notice: bool,
    /// The items that are drawn, by position in the run.
    pub rows: Vec<usize>,
    pub more: Option<MoreRows>,
}

/// "1 principal", "2 principals".
pub open spec fn principals(n: nat) -> Seq<char> {
    decimal(n) + " "@ + if n == 1 {
        "principal"@
    } else {
        "principals"@
    }
}

fn principals_text(n: usize) -> (r: String)
    ensures
        r@ == principals(n as nat),
{
    let mut s = count(n);
    s.append(" ");
    s.append(if n == 1 { "principal" } else { "principals" });
    s
}

/// The line of the select-all bar.
pub open spec fn affected_line(affected: nat, selectable: nat) -> Seq<char> {
    decimal(affected) + " affected — "@ + decimal(selectable) + " selectable for bulk fixes"@
}

/// The bulk fixes of a panel: none where its rows are read-only.
pub open spec fn panel_bulk(key: Seq<char>, actionable: bool) -> Seq<BulkAction> {
    if actionable {
        bulk_fixes(key)
    } else {
        Seq::empty()
    }
}

/// One panel of the pane. In a healthy group the rows are read-only: no bulk
/// fix, no selection.
pub fn finding_group_view(
    pane: &FindingsPane,
    g: &FindingGroup,
    items: &[AuditItem],
    report_available: bool,
    actionable: bool,
) -> (r: GroupPanel)
    ensures
        r.open == pane.shows(g.spec.key@),
        r.class@ == if actionable {
            "finding-group"@
        } else {
            "finding-group finding-group--healthy"@
        },
        r.tone@ == tone_of(g.worst),
        r.chevron@ == if r.open {
            "▾"@
        } else {
            "▸"@
        },
        r.count_label@ == principals(g.item_indices@.len()),
        r.count_label@ == decimal(g.item_indices@.len()) + " "@ + if g.item_indices@.len() == 1 {
            "principal"@
        } else {
            "principals"@
        },
        r.bulk@ == panel_bulk(g.spec.key@, actionable),
        actionable ==> r.bulk@ == bulk_fixes(g.spec.key@),
        !actionable ==> r.bulk@.len() == 0,
        texts(r.eligible@) == eligible(items@, g.item_indices@),
        r.fix_all is Some <==> r.open && r.bulk@.len() > 0,
        r.fix_all matches Some(t) ==> t@ == "Fix all "@ + decimal(r.eligible@.len()),
        r.select_label is Some <==> actionable,
        r.select_label matches Some(t) ==> t@ == affected_line(
            g.item_indices@.len(),
            r.eligible@.len(),
        ),
        r.select_label matches Some(t) ==> t@ == decimal(g.item_indices@.len()) + " affected — "@
            + decimal(r.eligible@.len()) + " selectable for bulk fixes"@,
        r.rows@.is_prefix_of(g.item_indices@),
        r.rows@.len() == g.item_indices@.len() || r.rows@.len() == pane.window.limit,
        r.report_notice == (g.spec.key@ == "unused"@ && !report_available),
        r.rows@ == g.item_indices@.take(
            drawn(pane.window.limit as nat, g.item_indices@.len()) as int,
        ),
        r.more is Some <==> g.item_indices@.len() > pane.window.limit,
        r.more matches Some(m) ==> m.label@ == "Showing "@ + decimal(pane.window.limit as nat)
            + " of "@ + decimal(g.item_indices@.len()) + " "@ + "affected"@ && m.button@
            == "Show "@ + decimal(
            crate::window::next_page(pane.window.limit as nat, g.item_indices@.len()),
        ) + " more"@,
{
    let n = g.item_indices.len();
    let open = pane.is_open(g.spec.key);
    let bulk = if actionable {
        group_bulk_actions(g.spec.key)
    } else {
        Vec::new()
    };
    let ids = eligible_ids(items, &g.item_indices);
    let fix_all = if open && bulk.len() > 0 {
        let mut s = "Fix all ".to_owned();
        s.append(count(ids.len()).as_str());
        Some(s)
    } else {
        None
    };
    let select_label = if actionable {
        let mut s = count(n);
        s.append(" affected — ");
        s.append(count(ids.len()).as_str());
        s.append(" selectable for bulk fixes");
        Some(s)
    } else {
        None
    };
    GroupPanel {
        open,
        class: if actionable {
            "finding-group"
        } else {
            "finding-group finding-group--healthy"
        },
        tone: tone(g.worst),
        chevron: if open {
            "▾"
        } else {
            "▸"
        },
        count_label: principals_text(n),
        bulk,
        eligible: ids,
        fix_all,
        select_label,
        report_notice: same(g.spec.key, "unused") && !report_available,
        rows: pane.window.first(&g.item_indices),
        more: pane.window.more(n, "affected"),
    }
}

/// At most one panel is open. Opening one, or closing it, empties the selection and
/// takes the window back to the first page; the healthy section stays as it is.
pub proof fn a_panel_owns_its_selection(
    before: FindingsPane,
    after: FindingsPane,
    expanded: Option<Seq<char>>,
    key: Seq<char>,
)
    requires
        expansion_changed(before, after, expanded),
    ensures
        after.shows(key) <==> expanded == Some(key),
        after.shows(key) <==> after.expanded is Some && after.expanded->0@ == key,
        forall|id: Seq<char>| !after.selection@.contains(id),
        after.window.limit == 200,
        after.healthy_open == before.healthy_open,
{
}

/// A healthy group is always shown, and below; an actionable one above, and only
/// while it affects somebody.
pub proof fn a_section_shows_its_own_groups(g: FindingGroup)
    ensures
        in_section(g, true) <==> g.spec.section is Healthy,
        in_section(g, false) <==> g.spec.section is Actionable && g.item_indices@.len() > 0,
{
}

} // verus!
