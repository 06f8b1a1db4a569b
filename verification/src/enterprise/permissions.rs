//! The permissions that the service principal holds.

use crate::session::{Command, UiError};
use crate::text::{same, texts};
use vstd::prelude::*;
use vstd::string::*;

verus! {

/// A grant that the service principal holds.
#[derive(Debug)]
pub struct HeldGrant {
    pub app_role_value: Option<String>,
    /// The value names a mailbox permission that can be confined.
    pub mail_scopable: bool,
    /// The value names a permission on every site.
    pub sites_orgwide: bool,
}

/// The values of the mailbox permissions among the grants, in order.
pub open spec fn mailbox_values(list: Seq<HeldGrant>) -> Seq<Seq<char>>
    decreases list.len(),
{
    if list.len() == 0 {
        Seq::empty()
    } else {
        let before = mailbox_values(list.drop_last());
        match list.last().app_role_value {
            Some(v) => if list.last().mail_scopable {
                before.push(v@)
            } else {
                before
            },
            None => before,
        }
    }
}

/// The values of the mailbox permissions among the grants, in order. Mailbox
/// scoping shows where there is one.
pub fn mail_values(list: &Vec<HeldGrant>) -> (r: Vec<String>)
    ensures
        texts(r@) == mailbox_values(list@),
{
    let mut out: Vec<String> = Vec::new();
    proof {
        assert(texts(out@) =~= Seq::empty());
        assert(list@.take(0) =~= Seq::empty());
    }
    for i in 0..list.len()
        invariant
            texts(out@) == mailbox_values(list@.take(i as int)),
    {
        proof {
            assert(list@.take(i as int + 1).drop_last() =~= list@.take(i as int));
            assert(list@.take(i as int + 1).last() == list@[i as int]);
        }
        let ghost before = out@;
        match &list[i].app_role_value {
            Some(v) => {
                if list[i].mail_scopable {
                    out.push(v.clone());
                    proof {
                        assert(texts(out@) =~= texts(before).push(v@));
                    }
                }
            },
            None => {},
        }
    }
    proof {
        assert(list@.take(list@.len() as int) =~= list@);
    }
    out
}

/// A grant on sites: on those selected, or on all.
pub open spec fn on_sites(g: HeldGrant) -> bool {
    g.app_role_value matches Some(v) && (v@ == "Sites.Selected"@ || g.sites_orgwide)
}

/// Whether the section on sites shows: some grant is on sites.
pub fn has_sites(list: &Vec<HeldGrant>) -> (r: bool)
    ensures
        r == exists|k: int| 0 <= k < list@.len() && on_sites(#[trigger] list@[k]),
        r == exists|k: int|
            0 <= k < list@.len() && (#[trigger] list@[k]).app_role_value is Some && (
            list@[k].app_role_value->0@ == "Sites.Selected"@ || list@[k].sites_orgwide),
{
    for i in 0..list.len()
        invariant
            forall|k: int| 0 <= k < i ==> !on_sites(#[trigger] list@[k]),
    {
        match &list[i].app_role_value {
            Some(v) => {
                if same(v.as_str(), "Sites.Selected") || list[i].sites_orgwide {
                    assert(on_sites(list@[i as int]));
                    return true;
                }
            },
            None => {},
        }
    }
    false
}

/// The tab. `P` is a permission picked for the wizard.
#[derive(Debug)]
pub struct PermissionsContent<P> {
    pub revoke: Command,
    pub pending_revoke: Option<String>,
    pub wizard_open: bool,
    pub wizard_preseed: Option<P>,
}

impl<P> PermissionsContent<P> {
    /// What holds at all times: a permission is picked beforehand only while the
    /// wizard is open.
    pub open spec fn well_formed(self) -> bool {
        self.wizard_preseed is Some ==> self.wizard_open
    }

    /// Nothing open.
    pub fn new() -> (r: PermissionsContent<P>)
        ensures
            r.well_formed(),
            !r.revoke.busy,
            r.revoke.error is None,
            r.pending_revoke is None,
            !r.wizard_open,
    {
        PermissionsContent {
            revoke: Command::new(),
            pending_revoke: None,
            wizard_open: false,
            wizard_preseed: None,
        }
    }

    /// "Grant access": the wizard opens, with nothing picked where it was closed.
    pub fn open_wizard(&mut self)
        requires
            old(self).well_formed(),
        ensures
            final(self).well_formed(),
            *final(self) == (PermissionsContent { wizard_open: true, ..*old(self) }),
            !old(self).wizard_open ==> final(self).wizard_preseed is None,
    {
        self.wizard_open = true;
    }

    /// "Scope…" of a row: the wizard opens on that permission.
    pub fn scope(&mut self, picked: P)
        ensures
            final(self).well_formed(),
            *final(self) == (PermissionsContent {
                wizard_open: true,
                wizard_preseed: Some(picked),
                ..*old(self)
            }),
    {
        self.wizard_preseed = Some(picked);
        self.wizard_open = true;
    }

    /// The wizard closes.
    pub fn close_wizard(&mut self)
        ensures
            final(self).well_formed(),
            *final(self) == (PermissionsContent {
                wizard_open: false,
                wizard_preseed: None,
                ..*old(self)
            }),
    {
        self.wizard_open = false;
        self.wizard_preseed = None;
    }

    /// "Revoke": asks first, without the error of the last try.
    pub fn ask_revoke(&mut self, assignment_id: String)
        ensures
            *final(self) == (PermissionsContent {
                pending_revoke: Some(assignment_id),
                revoke: Command { error: None, ..old(self).revoke },
                ..*old(self)
            }),
    {
        self.revoke.error = None;
        self.pending_revoke = Some(assignment_id);
    }

    /// The question is withdrawn.
    pub fn keep(&mut self)
        ensures
            *final(self) == (PermissionsContent {
                pending_revoke: None,
                revoke: Command { error: None, ..old(self).revoke },
                ..*old(self)
            }),
    {
        self.pending_revoke = None;
        self.revoke.error = None;
    }

    /// The question is answered: the grant to revoke. The question stays until
    /// that has worked.
    pub fn confirm_revoke(&mut self, tenant: &Option<String>) -> (r: Option<String>)
        ensures
            r == if old(self).revoke.ready(*tenant) {
                old(self).pending_revoke
            } else {
                None
            },
            r is Some ==> *final(self) == (PermissionsContent {
                revoke: Command { busy: true, error: None },
                ..*old(self)
            }),
            r is None ==> *final(self) == *old(self),
    {
        match &self.pending_revoke {
            None => None,
            Some(id) => {
                if self.revoke.start(tenant) {
                    Some(id.clone())
                } else {
                    None
                }
            },
        }
    }

    /// The grant has been revoked: the list is read again. Or it could not be,
    /// and the question says why. Returns whether to read again.
    pub fn revoked(&mut self, outcome: Result<(), UiError>) -> (r: bool)
        ensures
            r == outcome is Ok,
            outcome is Ok ==> *final(self) == (PermissionsContent {
                pending_revoke: None,
                revoke: Command { busy: false, ..old(self).revoke },
                ..*old(self)
            }),
            outcome matches Err(e) ==> *final(self) == (PermissionsContent {
                revoke: Command { busy: false, error: Some(e.message) },
                ..*old(self)
            }),
    {
        match outcome {
            Ok(()) => {
                self.revoke.finish(None);
                self.pending_revoke = None;
                true
            },
            Err(e) => {
                self.revoke.finish(Some(e.message));
                false
            },
        }
    }
}

/// The values of the mailbox permissions are taken grant by grant: the value of a
/// grant is among them exactly if it has one that can be confined.
pub proof fn mailbox_values_are_taken_grant_by_grant(
    g: HeldGrant,
    a: Seq<HeldGrant>,
    b: Seq<HeldGrant>,
)
    ensures
        g.mail_scopable ==> (g.app_role_value matches Some(v) ==> mailbox_values(seq![g]) == seq![
            v@,
        ]),
        !g.mail_scopable || g.app_role_value is None ==> mailbox_values(seq![g]).len() == 0,
        mailbox_values(a + b) == mailbox_values(a) + mailbox_values(b),
    decreases b.len(),
{
    reveal_with_fuel(mailbox_values, 2);
    assert(seq![g].drop_last() =~= Seq::<HeldGrant>::empty());
    if let Some(v) = g.app_role_value {
        assert(Seq::<Seq<char>>::empty().push(v@) =~= seq![v@]);
    }
    if b.len() == 0 {
        assert(a + b =~= a);
        assert(mailbox_values(a) + mailbox_values(b) =~= mailbox_values(a));
    } else {
        mailbox_values_are_taken_grant_by_grant(g, a, b.drop_last());
        assert((a + b).drop_last() =~= a + b.drop_last());
        assert((a + b).last() == b.last());
        assert(mailbox_values(a + b) =~= mailbox_values(a) + mailbox_values(b));
    }
}

} // verus!
