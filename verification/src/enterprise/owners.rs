//! The owners of an enterprise application. Only users can be owners.

use crate::dialogs::add_owner::{failed_line, OwnerRef, OwnerRun};
use crate::rows::{positions, selects, RowTest};
use crate::session::{directory_query, holds_text, is_text, UiError};
use crate::text::{any_same, count, decimal, long_enough, texts, trimmed, under_two_bytes};
use vstd::prelude::*;
use vstd::string::*;

verus! {

/// A user of the directory.
#[derive(Debug)]
pub struct DirectoryUser {
    pub id: String,
    pub display_name: Option<String>,
    pub user_principal_name: Option<String>,
}

/// The text, or the id where there is none.
pub open spec fn or_id(s: Option<String>, id: String) -> Seq<char> {
    match s {
        Some(t) => t@,
        None => id@,
    }
}

fn text_or_id(s: &Option<String>, id: &String) -> (r: String)
    ensures
        r@ == or_id(*s, *id),
{
    match s {
        Some(t) => t.clone(),
        None => id.clone(),
    }
}

impl DirectoryUser {
    /// The first line of the user's row: the name, or else the id.
    pub fn title(&self) -> (r: String)
        ensures
            r@ == or_id(self.display_name, self.id),
            self.display_name matches Some(n) ==> r@ == n@,
            self.display_name is None ==> r@ == self.id@,
    {
        text_or_id(&self.display_name, &self.id)
    }

    /// The second line of the user's row: the principal name, or else the id.
    pub fn subtitle(&self) -> (r: String)
        ensures
            r@ == or_id(self.user_principal_name, self.id),
            self.user_principal_name matches Some(n) ==> r@ == n@,
            self.user_principal_name is None ==> r@ == self.id@,
    {
        text_or_id(&self.user_principal_name, &self.id)
    }
}

struct NotAmong<'a> {
    existing: &'a Vec<String>,
}

impl<'a> RowTest<DirectoryUser> for NotAmong<'a> {
    closed spec fn holds(&self, row: DirectoryUser) -> bool {
        !texts(self.existing@).contains(row.id@)
    }

    fn test(&self, row: &DirectoryUser) -> (r: bool) {
        !any_same(self.existing, row.id.as_str())
    }
}

/// The candidates that are shown, in the order of the search: those who are not
/// owners already.
pub fn offered(users: &Vec<DirectoryUser>, existing: &Vec<String>) -> (r: Vec<usize>)
    ensures
        selects(users@, |u: DirectoryUser| !texts(existing@).contains(u.id@), r@),
{
    let t = NotAmong { existing };
    let r = positions(users.as_slice(), &t);
    proof {
        assert((|u: DirectoryUser| t.holds(u)) =~= (|u: DirectoryUser|
            !texts(existing@).contains(u.id@)));
    }
    r
}

/// The list of candidates.
#[derive(Debug)]
pub enum Candidates {
    /// The query is too short: no list.
    Hidden,
    Failed(String),
    Nothing,
    /// The positions of those shown.
    Shown(Vec<usize>),
}

/// What the list of candidates shows of the outcome of a search.
pub fn candidates(
    raw_query: &str,
    found: &Result<Vec<DirectoryUser>, String>,
    existing: &Vec<String>,
) -> (r: Candidates)
    ensures
        r is Hidden <==> under_two_bytes(trimmed(raw_query@)),
        !under_two_bytes(trimmed(raw_query@)) ==> match *found {
            Err(m) => r is Failed && r->Failed_0@ == "Search failed: "@ + m@,
            Ok(users) => if forall|k: int|
                0 <= k < users@.len() ==> texts(existing@).contains((#[trigger] users@[k]).id@) {
                r is Nothing
            } else {
                r is Shown && selects(
                    users@,
                    |u: DirectoryUser| !texts(existing@).contains(u.id@),
                    r->Shown_0@,
                )
            },
        },
{
    if !long_enough(raw_query) {
        return Candidates::Hidden;
    }
    match found {
        Err(m) => {
            let mut s = "Search failed: ".to_owned();
            s.append(m.as_str());
            Candidates::Failed(s)
        },
        Ok(users) => {
            let shown = offered(users, existing);
            proof {
                let p = |u: DirectoryUser| !texts(existing@).contains(u.id@);
                if shown@.len() > 0 {
                    assert(p(users@[shown@[0] as int]));
                } else {
                    assert forall|k: int| 0 <= k < users@.len() implies texts(
                        existing@,
                    ).contains((#[trigger] users@[k]).id@) by {
                        if p(users@[k]) {
                            assert(shown@.contains(k as usize));
                        }
                    }
                }
            }
            if shown.len() == 0 {
                Candidates::Nothing
            } else {
                Candidates::Shown(shown)
            }
        },
    }
}

/// What to add or to remove.
#[derive(Debug)]
pub struct OwnerChange {
    pub add: bool,
    pub principal_id: String,
}

/// The tab.
#[derive(Debug)]
pub struct OwnersContent {
    /// The user who is being added or removed.
    pub busy: Option<String>,
    pub error: Option<String>,
    pub raw_query: String,
    pub pending_remove: Option<String>,
    pub adding_defaults: bool,
}

/// What is said once the default owners are in place.
pub open spec fn defaults_line(added: nat) -> Seq<char> {
    if added > 0 {
        "Added "@ + decimal(added) + " default owner(s)."@
    } else {
        "Default owners are already present."@
    }
}

impl OwnersContent {
    /// Nothing under way.
    pub fn new() -> (r: OwnersContent)
        ensures
            r.busy is None,
            r.error is None,
            r.raw_query@.len() == 0,
            r.pending_remove is None,
            !r.adding_defaults,
    {
        OwnersContent {
            busy: None,
            error: None,
            raw_query: String::new(),
            pending_remove: None,
            adding_defaults: false,
        }
    }

    /// Whether the directory is to be searched: two bytes at least, and a
    /// tenant.
    pub fn searches(query: &str, tenant: &Option<String>) -> (r: bool)
        ensures
            r == (!under_two_bytes(trimmed(query@)) && tenant is Some),
    {
        long_enough(query) && tenant.is_some()
    }

    /// What the directory is searched for: the query without its outer white
    /// space. Nothing where it is not to be searched.
    pub fn search_text(query: &str, tenant: &Option<String>) -> (r: Option<String>)
        ensures
            r is Some <==> !under_two_bytes(trimmed(query@)) && tenant is Some,
            r matches Some(q) ==> q@ == trimmed(query@),
    {
        directory_query(query, tenant)
    }

    /// Whether the button of a user is off: that user is being added or removed.
    pub fn row_busy(&self, id: &str) -> (r: bool)
        ensures
            r == is_text(self.busy, id@),
    {
        holds_text(&self.busy, id)
    }

    /// Adds or removes a user, unless one is being added or removed. Returns
    /// whether to send the change; without a tenant only the last error goes.
    pub fn mutate(&mut self, change: &OwnerChange, tenant: &Option<String>) -> (r: bool)
        ensures
            r == (old(self).busy is None && tenant is Some),
            r ==> *final(self) == (OwnersContent {
                busy: Some(change.principal_id),
                error: None,
                ..*old(self)
            }),
            !r ==> *final(self) == if old(self).busy is Some {
                *old(self)
            } else {
                OwnersContent { error: None, ..*old(self) }
            },
    {
        if self.busy.is_some() {
            return false;
        }
        self.error = None;
        if tenant.is_none() {
            return false;
        }
        self.busy = Some(change.principal_id.clone());
        true
    }

    /// The change has been made, or could not be. After success the whole pane is
    /// loaded again, so the row stays off. Returns what to say then.
    pub fn mutated(&mut self, add: bool, outcome: Result<(), UiError>) -> (r: Option<&'static str>)
        ensures
            r is Some <==> outcome is Ok,
            r matches Some(t) ==> t@ == (if add {
                "Owner added."@
            } else {
                "Owner removed."@
            }),
            outcome is Ok ==> *final(self) == *old(self),
            outcome matches Err(e) ==> *final(self) == (OwnersContent {
                busy: None,
                error: Some(e.message),
                ..*old(self)
            }),
    {
        match outcome {
            Ok(()) => if add {
                Some("Owner added.")
            } else {
                Some("Owner removed.")
            },
            Err(e) => {
                self.error = Some(e.message);
                self.busy = None;
                None
            },
        }
    }

    /// "Remove": asks first.
    pub fn ask_remove(&mut self, id: String)
        ensures
            *final(self) == (OwnersContent { pending_remove: Some(id), ..*old(self) }),
    {
        self.pending_remove = Some(id);
    }

    /// The question is withdrawn.
    pub fn keep(&mut self)
        ensures
            *final(self) == (OwnersContent { pending_remove: None, ..*old(self) }),
    {
        self.pending_remove = None;
    }

    /// The question is answered. Returns the change to send, if any.
    pub fn confirm_remove(&mut self, tenant: &Option<String>) -> (r: Option<OwnerChange>)
        ensures
            r is Some <==> old(self).pending_remove is Some && old(self).busy is None
                && tenant is Some,
            r matches Some(c) ==> !c.add && Some(c.principal_id) == old(self).pending_remove
                && *final(self) == (OwnersContent {
                pending_remove: None,
                busy: old(self).pending_remove,
                error: None,
                ..*old(self)
            }),
            r is None ==> *final(self) == (OwnersContent {
                pending_remove: None,
                error: if old(self).pending_remove is Some && old(self).busy is None {
                    None
                } else {
                    old(self).error
                },
                ..*old(self)
            }),
    {
        let asked = self.pending_remove.take();
        match asked {
            None => None,
            Some(id) => {
                let change = OwnerChange { add: false, principal_id: id };
                if self.mutate(&change, tenant) {
                    Some(change)
                } else {
                    None
                }
            },
        }
    }

    /// "Add default owners". Returns whether they are to be looked up; without a
    /// tenant only the last error goes.
    pub fn add_defaults(&mut self, tenant: &Option<String>) -> (r: bool)
        ensures
            r == (!old(self).adding_defaults && tenant is Some),
            *final(self) == if old(self).adding_defaults {
                *old(self)
            } else {
                OwnersContent { adding_defaults: tenant is Some, error: None, ..*old(self) }
            },
    {
        if self.adding_defaults {
            return false;
        }
        self.error = None;
        if tenant.is_none() {
            return false;
        }
        self.adding_defaults = true;
        true
    }

    /// The default owners have been looked up. Returns whether to go on.
    pub fn defaults_found(&mut self, owners: &Vec<OwnerRef>) -> (r: bool)
        ensures
            r == (owners@.len() > 0),
            r ==> *final(self) == *old(self),
            !r ==> is_text(
                final(self).error,
                "No default owners configured — set them in Settings."@,
            ) && *final(self) == (OwnersContent {
                adding_defaults: false,
                error: final(self).error,
                ..*old(self)
            }),
    {
        if owners.len() == 0 {
            self.error = Some("No default owners configured — set them in Settings.".to_owned());
            self.adding_defaults = false;
            return false;
        }
        true
    }

    /// Every default owner has been dealt with. After success the whole pane is
    /// loaded again. Returns what to say then.
    pub fn defaults_finished(&mut self, run: &OwnerRun) -> (r: Option<String>)
        ensures
            r is Some <==> run.failures@.len() == 0,
            r matches Some(t) ==> t@ == defaults_line(run.added as nat) && *final(self) == *old(
                self,
            ),
            r is None ==> is_text(final(self).error, failed_line(run.failures@)) && *final(self)
                == (OwnersContent {
                adding_defaults: false,
                error: final(self).error,
                ..*old(self)
            }),
            r matches Some(t) ==> t@ == if run.added == 0 {
                "Default owners are already present."@
            } else {
                "Added "@ + decimal(run.added as nat) + " default owner(s)."@
            },
    {
        match run.error() {
            Some(e) => {
                self.error = Some(e);
                self.adding_defaults = false;
                None
            },
            None => {
                if run.added > 0 {
                    let mut s = "Added ".to_owned();
                    s.append(count(run.added).as_str());
                    s.append(" default owner(s).");
                    Some(s)
                } else {
                    Some("Default owners are already present.".to_owned())
                }
            },
        }
    }
}

} // verus!
