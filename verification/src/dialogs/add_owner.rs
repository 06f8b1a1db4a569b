//! Adding an owner: one picked from the directory, or the owners that the
//! tenant's settings name as default.

use crate::enterprise::owners::DirectoryUser;
use crate::rows::{positions, selects, RowTest};
use crate::session::{directory_query, is_text, or_dash, text_or_dash, UiError};
use crate::text::{
    any_same, count, decimal, join, joined, long_enough, texts, trimmed, under_two_bytes,
};
use vstd::prelude::*;
use vstd::string::*;

verus! {

/// A user, as the settings name them.
#[derive(Debug)]
pub struct OwnerRef {
    pub id: String,
    pub display_name: Option<String>,
}

impl OwnerRef {
    /// The name by which the user is reported.
    pub open spec fn label(self) -> Seq<char> {
        match self.display_name {
            Some(n) => n@,
            None => self.id@,
        }
    }

    /// The name by which the user is reported.
    pub fn name(&self) -> (r: String)
        ensures
            r@ == self.label(),
            self.display_name matches Some(n) ==> r@ == n@,
            self.display_name is None ==> r@ == self.id@,
    {
        match &self.display_name {
            Some(n) => n.clone(),
            None => self.id.clone(),
        }
    }
}

struct NotYetOwner<'a> {
    existing: &'a Vec<String>,
}

impl<'a> RowTest<OwnerRef> for NotYetOwner<'a> {
    closed spec fn holds(&self, row: OwnerRef) -> bool {
        !texts(self.existing@).contains(row.id@)
    }

    fn test(&self, row: &OwnerRef) -> (r: bool) {
        !any_same(self.existing, row.id.as_str())
    }
}

/// The default owners that are still to be added, in order: all but those who
/// are owners already.
pub fn missing_owners(owners: &Vec<OwnerRef>, existing: &Vec<String>) -> (r: Vec<usize>)
    ensures
        selects(owners@, |o: OwnerRef| !texts(existing@).contains(o.id@), r@),
{
    let t = NotYetOwner { existing };
    let r = positions(owners.as_slice(), &t);
    proof {
        assert((|o: OwnerRef| t.holds(o)) =~= (|o: OwnerRef|
            !texts(existing@).contains(o.id@)));
    }
    r
}

/// How adding the default owners has gone so far.
#[derive(Debug)]
pub struct OwnerRun {
    pub added: usize,
    pub failures: Vec<String>,
}

/// What is said of one owner that could not be added.
pub open spec fn failure_line(owner: OwnerRef, message: Seq<char>) -> Seq<char> {
    owner.label() + ": "@ + message
}

/// What is said when some could not be added.
pub open spec fn failed_line(failures: Seq<String>) -> Seq<char> {
    decimal(failures.len()) + " default owner(s) failed — "@ + joined(texts(failures), "; "@)
}

impl OwnerRun {
    /// Nobody asked yet.
    pub fn new() -> (r: OwnerRun)
        ensures
            r.added == 0,
            r.failures@.len() == 0,
    {
        OwnerRun { added: 0, failures: Vec::new() }
    }

    /// One owner has been added, or could not be: each is counted once.
    pub fn note(&mut self, owner: &OwnerRef, outcome: Result<(), UiError>)
        requires
            old(self).added < usize::MAX,
        ensures
            final(self).added + final(self).failures@.len() == old(self).added + old(
                self,
            ).failures@.len() + 1,
            outcome is Ok ==> final(self).added == old(self).added + 1 && final(self).failures
                == old(self).failures,
            outcome matches Err(e) ==> final(self).added == old(self).added && texts(
                final(self).failures@,
            ) == texts(old(self).failures@).push(failure_line(*owner, e.message@)),
            outcome matches Err(e) ==> final(self).failures@.len() == old(self).failures@.len() + 1
                && final(self).failures@.last()@ == (match owner.display_name {
                Some(n) => n@,
                None => owner.id@,
            }) + ": "@ + e.message@,
    {
        match outcome {
            Ok(()) => {
                self.added = self.added + 1;
            },
            Err(e) => {
                let ghost before = self.failures@;
                let mut s = owner.name();
                s.append(": ");
                s.append(e.message.as_str());
                self.failures.push(s);
                proof {
                    assert(texts(self.failures@) =~= texts(before).push(s@));
                }
            },
        }
    }

    /// What is said when some could not be added; nothing when all went well.
    pub fn error(&self) -> (r: Option<String>)
        ensures
            r is Some <==> self.failures@.len() > 0,
            r matches Some(t) ==> t@ == failed_line(self.failures@),
            r matches Some(t) ==> t@ == decimal(self.failures@.len())
                + " default owner(s) failed — "@ + joined(texts(self.failures@), "; "@),
    {
        if self.failures.len() == 0 {
            return None;
        }
        let mut s = count(self.failures.len());
        s.append(" default owner(s) failed — ");
        s.append(join(&self.failures, "; ").as_str());
        Some(s)
    }
}

/// A user who can be picked.
#[derive(Debug)]
pub struct OwnerCandidate {
    pub id: String,
    pub name: String,
    pub upn: String,
}

/// `c` shows the user: a dash for a missing name, nothing for a missing principal
/// name.
pub open spec fn shows_user(c: OwnerCandidate, u: DirectoryUser) -> bool {
    &&& c.id == u.id
    &&& c.name@ == or_dash(u.display_name)
    &&& match u.user_principal_name {
        Some(t) => c.upn == t,
        None => c.upn@.len() == 0,
    }
}

/// The list of users who can be picked.
#[derive(Debug)]
pub enum OwnerCandidates {
    /// The search failed.
    Failed(String),
    /// Nothing was searched for.
    Hidden,
    /// Nobody was found.
    Nothing(&'static str),
    Shown(Vec<OwnerCandidate>),
}

/// What the dialog shows of the outcome of a search. Whoever was found is shown,
/// whatever has been typed since.
pub fn candidates(query: &str, found: &Result<Vec<DirectoryUser>, String>) -> (r: OwnerCandidates)
    ensures
        match *found {
            Err(m) => r is Failed && r->Failed_0 == m,
            Ok(users) => if users@.len() > 0 {
                &&& r is Shown
                &&& r->Shown_0@.len() == users@.len()
                &&& forall|k: int|
                    0 <= k < users@.len() ==> shows_user(#[trigger] r->Shown_0@[k], users@[k])
            } else if under_two_bytes(trimmed(query@)) {
                r is Hidden
            } else {
                r is Nothing && r->Nothing_0@ == "No matches."@
            },
        },
{
    match found {
        Err(m) => OwnerCandidates::Failed(m.clone()),
        Ok(users) => {
            if users.len() == 0 {
                if long_enough(query) {
                    return OwnerCandidates::Nothing("No matches.");
                }
                return OwnerCandidates::Hidden;
            }
            let mut out: Vec<OwnerCandidate> = Vec::new();
            for i in 0..users.len()
                invariant
                    out@.len() == i,
                    forall|k: int| 0 <= k < i ==> shows_user(#[trigger] out@[k], users@[k]),
            {
                let u = &users[i];
                out.push(
                    OwnerCandidate {
                        id: u.id.clone(),
                        name: text_or_dash(&u.display_name),
                        upn: match &u.user_principal_name {
                            Some(t) => t.clone(),
                            None => String::new(),
                        },
                    },
                );
            }
            OwnerCandidates::Shown(out)
        },
    }
}

/// The "Add owner" fix of an audit row.
#[derive(Debug)]
pub struct AddOwnerButton {
    pub open: bool,
    pub busy: bool,
    pub adding_defaults: bool,
    pub error: Option<String>,
    pub raw_query: String,
}

/// What is said once the default owners are in place.
pub open spec fn defaults_line(added: nat) -> Seq<char> {
    if added > 0 {
        "Added "@ + decimal(added)
            + " default owner(s) — re-run the audit to refresh the ownership finding."@
    } else {
        "Default owners are already present — re-run the audit to refresh."@
    }
}

impl AddOwnerButton {
    /// Closed, with nothing entered.
    pub fn new() -> (r: AddOwnerButton)
        ensures
            !r.open,
            !r.busy,
            !r.adding_defaults,
            r.error is None,
            r.raw_query@.len() == 0,
    {
        AddOwnerButton {
            open: false,
            busy: false,
            adding_defaults: false,
            error: None,
            raw_query: String::new(),
        }
    }

    /// Something is under way.
    pub open spec fn working(self) -> bool {
        self.busy || self.adding_defaults
    }

    /// Whether Escape closes the dialog: not while something is under way.
    pub fn can_close(&self) -> (r: bool)
        ensures
            r == (self.open && !self.working()),
            r == (self.open && !self.busy && !self.adding_defaults),
    {
        self.open && !self.busy && !self.adding_defaults
    }

    /// Whether the directory is to be searched: two bytes at least, and a
    /// tenant.
    pub fn searches(query: &str, tenant: &Option<String>) -> (r: bool)
        ensures
            r == (!under_two_bytes(trimmed(query@)) && tenant is Some),
    {
        long_enough(query) && tenant.is_some()
    }

    /// What the directory is searched for: the query without its outer white
    /// space. Nothing where it is not to be searched.
    pub fn search_text(query: &str, tenant: &Option<String>) -> (r: Option<String>)
        ensures
            r is Some <==> !under_two_bytes(trimmed(query@)) && tenant is Some,
            r matches Some(q) ==> q@ == trimmed(query@),
    {
        directory_query(query, tenant)
    }

    /// A user is picked. Returns whether they are to be added.
    pub fn add(&mut self, tenant: &Option<String>) -> (r: bool)
        ensures
            r == (!old(self).working() && tenant is Some),
            r == (!old(self).busy && !old(self).adding_defaults && tenant is Some),
            r ==> *final(self) == (AddOwnerButton { busy: true, error: None, ..*old(self) }),
            !r ==> *final(self) == *old(self),
    {
        if self.busy || self.adding_defaults || tenant.is_none() {
            return false;
        }
        self.busy = true;
        self.error = None;
        true
    }

    /// The picked user has been added, or could not be. Returns whether the
    /// row's fix is to be taken away.
    pub fn add_finished(&mut self, outcome: Result<(), UiError>) -> (r: bool)
        ensures
            r == outcome is Ok,
            outcome is Ok ==> final(self).raw_query@.len() == 0 && *final(self) == (
            AddOwnerButton {
                open: false,
                busy: false,
                raw_query: final(self).raw_query,
                ..*old(self)
            }),
            outcome matches Err(e) ==> *final(self) == (AddOwnerButton {
                busy: false,
                error: Some(e.message),
                ..*old(self)
            }),
    {
        self.busy = false;
        match outcome {
            Ok(()) => {
                self.open = false;
                self.raw_query = String::new();
                true
            },
            Err(e) => {
                self.error = Some(e.message);
                false
            },
        }
    }

    /// "Add default owners". Returns whether they are to be looked up.
    pub fn add_defaults(&mut self, tenant: &Option<String>) -> (r: bool)
        ensures
            r == (!old(self).working() && tenant is Some),
            r == (!old(self).busy && !old(self).adding_defaults && tenant is Some),
            r ==> *final(self) == (AddOwnerButton {
                adding_defaults: true,
                error: None,
                ..*old(self)
            }),
            !r ==> *final(self) == *old(self),
    {
        if self.busy || self.adding_defaults || tenant.is_none() {
            return false;
        }
        self.adding_defaults = true;
        self.error = None;
        true
    }

    /// The default owners have been looked up. Without any there is nothing to
    /// do. Returns whether to go on.
    pub fn defaults_found(&mut self, owners: &Vec<OwnerRef>) -> (r: bool)
        ensures
            r == (owners@.len() > 0),
            r ==> *final(self) == *old(self),
            !r ==> is_text(
                final(self).error,
                "No default owners configured — set them in Settings."@,
            ) && *final(self) == (AddOwnerButton {
                adding_defaults: false,
                error: final(self).error,
                ..*old(self)
            }),
    {
        if owners.len() == 0 {
            self.error = Some("No default owners configured — set them in Settings.".to_owned());
            self.adding_defaults = false;
            return false;
        }
        true
    }

    /// Every default owner has been dealt with. A failure keeps the dialog open
    /// and the fix in place. Returns what to say on success.
    pub fn defaults_finished(&mut self, run: &OwnerRun) -> (r: Option<String>)
        ensures
            r is Some <==> run.failures@.len() == 0,
            r matches Some(t) ==> t@ == defaults_line(run.added as nat)
                && final(self).raw_query@.len() == 0 && *final(self) == (AddOwnerButton {
                open: false,
                adding_defaults: false,
                raw_query: final(self).raw_query,
                ..*old(self)
            }),
            r is None ==> is_text(final(self).error, failed_line(run.failures@)) && *final(self)
                == (AddOwnerButton {
                adding_defaults: false,
                error: final(self).error,
                ..*old(self)
            }),
            r matches Some(t) ==> t@ == if run.added == 0 {
                "Default owners are already present — re-run the audit to refresh."@
            } else {
                "Added "@ + decimal(run.added as nat)
                    + " default owner(s) — re-run the audit to refresh the ownership finding."@
            },
            r is None ==> final(self).error is Some && final(self).error->0@ == decimal(
                run.failures@.len(),
            ) + " default owner(s) failed — "@ + joined(texts(run.failures@), "; "@),
    {
        self.adding_defaults = false;
        match run.error() {
            Some(e) => {
                self.error = Some(e);
                None
            },
            None => {
                self.open = false;
                self.raw_query = String::new();
                if run.added > 0 {
                    let mut s = "Added ".to_owned();
                    s.append(count(run.added).as_str());
                    s.append(
                        " default owner(s) — re-run the audit to refresh the ownership finding.",
                    );
                    Some(s)
                } else {
                    Some(
                        "Default owners are already present — re-run the audit to refresh.".to_owned(),
                    )
                }
            },
        }
    }
}

/// A candidate stands for one user: by their id, their name or else a dash, and
/// their principal name or else nothing.
pub proof fn a_candidate_is_shown_field_by_field(c: OwnerCandidate, u: DirectoryUser)
    requires
        shows_user(c, u),
    ensures
        c.id == u.id,
        u.display_name matches Some(n) ==> c.name@ == n@,
        u.display_name is None ==> c.name@ == "—"@,
        u.user_principal_name matches Some(t) ==> c.upn == t,
        u.user_principal_name is None ==> c.upn@.len() == 0,
{
}

} // verus!
