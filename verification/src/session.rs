//! What the screens share: errors as the backend reports them, the set of
//! selected rows, and the life of a command.

use crate::text::{long_enough, same, texts, trim, trimmed, under_two_bytes};
use vstd::prelude::*;
use vstd::string::*;

verus! {

/// An error as the backend reports it.
#[derive(Debug)]
pub struct UiError {
    pub code: String,
    pub message: String,
    pub retryable: bool,
}

/// The code of an error that a missing consent caused.
pub open spec fn needs_consent(e: UiError) -> bool {
    e.code@ == "consent_required"@
}

/// Whether a missing consent caused the error.
pub fn is_consent_error(e: &UiError) -> (r: bool)
    ensures
        r == needs_consent(*e),
        r == (e.code@ == "consent_required"@),
{
    same(e.code.as_str(), "consent_required")
}

/// The text of a load that failed: code and message.
pub open spec fn error_line(e: UiError) -> Seq<char> {
    "error ["@ + e.code@ + "]: "@ + e.message@
}

/// The text of a load that failed: code and message.
pub fn error_text(e: &UiError) -> (r: String)
    ensures
        r@ == error_line(*e),
        r@ == "error ["@ + e.code@ + "]: "@ + e.message@,
{
    let mut s = "error [".to_owned();
    s.append(e.code.as_str());
    s.append("]: ");
    s.append(e.message.as_str());
    s
}

/// The tenant to load from, or the error of a load without one.
pub fn require_tenant(tenant: &Option<String>) -> (r: Result<String, UiError>)
    ensures
        r is Ok <==> tenant is Some,
        r matches Ok(t) ==> Some(t) == *tenant,
        r matches Err(e) ==> e.code@ == "no_tenant"@ && e.message@ == "tenant missing"@
            && !e.retryable,
{
    match tenant {
        Some(t) => Ok(t.clone()),
        None => Err(
            UiError {
                code: "no_tenant".to_owned(),
                message: "tenant missing".to_owned(),
                retryable: false,
            },
        ),
    }
}

/// A short message, shown for a while.
#[derive(Debug)]
pub enum Toast {
    Success(String),
    Failure(String),
}

impl Toast {
    /// The message reports success in these words.
    pub open spec fn reports(self, words: Seq<char>) -> bool {
        self matches Toast::Success(t) && t@ == words
    }
}

/// What a command without a place for its error ends in: the words for success,
/// or the error's own.
pub open spec fn told(t: Toast, outcome: Result<(), UiError>, words: Seq<char>) -> bool {
    match outcome {
        Ok(_) => t.reports(words),
        Err(e) => t == Toast::Failure(e.message),
    }
}

/// What a command without a place for its error ends in.
pub(crate) fn tell(outcome: Result<(), UiError>, words: &str) -> (r: Toast)
    ensures
        told(r, outcome, words@),
{
    match outcome {
        Ok(()) => Toast::Success(words.to_owned()),
        Err(e) => Toast::Failure(e.message),
    }
}

/// A copy of an optional text.
pub(crate) fn copy_text(s: &Option<String>) -> (r: Option<String>)
    ensures
        r == *s,
{
    match s {
        Some(t) => Some(t.clone()),
        None => None,
    }
}

/// The text, or a dash where there is none.
pub open spec fn or_dash(s: Option<String>) -> Seq<char> {
    match s {
        Some(t) => t@,
        None => "—"@,
    }
}

/// The text, or a dash where there is none.
pub fn text_or_dash(s: &Option<String>) -> (r: String)
    ensures
        r@ == or_dash(*s),
        s matches Some(t) ==> r@ == t@,
        s is None ==> r@ == "—"@,
{
    match s {
        Some(t) => t.clone(),
        None => "—".to_owned(),
    }
}

/// What a search of the directory asks for: the query without its outer white
/// space. Nothing is asked with fewer than two bytes, or without a tenant.
pub fn directory_query(query: &str, tenant: &Option<String>) -> (r: Option<String>)
    ensures
        r is Some <==> !under_two_bytes(trimmed(query@)) && tenant is Some,
        r matches Some(q) ==> q@ == trimmed(query@),
{
    if long_enough(query) && tenant.is_some() {
        Some(trim(query))
    } else {
        None
    }
}

/// The optional text is `s`.
pub open spec fn is_text(a: Option<String>, s: Seq<char>) -> bool {
    a matches Some(x) && x@ == s
}

/// Whether the optional text is `s`.
pub fn holds_text(a: &Option<String>, s: &str) -> (r: bool)
    ensures
        r == is_text(*a, s@),
{
    match a {
        Some(x) => same(x.as_str(), s),
        None => false,
    }
}

/// A set of row ids. Its view is the set of their texts.
#[derive(Debug)]
pub struct Selection {
    ids: Vec<String>,
}

impl View for Selection {
    type V = Set<Seq<char>>;

    closed spec fn view(&self) -> Set<Seq<char>> {
        texts(self.ids@).to_set()
    }
}

impl Selection {
    #[verifier::type_invariant]
    spec fn no_id_twice(self) -> bool {
        texts(self.ids@).no_duplicates()
    }

    /// Nothing selected.
    pub fn new() -> (r: Selection)
        ensures
            r@ == Set::<Seq<char>>::empty(),
    {
        let r = Selection { ids: Vec::new() };
        proof {
            assert(texts(r.ids@) =~= Seq::empty());
            assert(r@ =~= Set::empty());
        }
        r
    }

    /// Where `id` stands in the list, if it does.
    fn place_of(&self, id: &str) -> (r: Option<usize>)
        ensures
            r is Some <==> self@.contains(id@),
            r matches Some(k) ==> k < self.ids@.len() && self.ids@[k as int]@ == id@,
    {
        for k in 0..self.ids.len()
            invariant
                forall|j: int| 0 <= j < k ==> self.ids@[j]@ != id@,
        {
            if same(self.ids[k].as_str(), id) {
                proof {
                    assert(texts(self.ids@)[k as int] == id@);
                    assert(texts(self.ids@).contains(id@));
                }
                return Some(k);
            }
        }
        proof {
            if texts(self.ids@).contains(id@) {
                let j = choose|j: int| 0 <= j < texts(self.ids@).len() && texts(self.ids@)[j] == id@;
                assert(self.ids@[j]@ == id@);
            }
        }
        None
    }

    /// Whether `id` is selected.
    pub fn contains(&self, id: &str) -> (r: bool)
        ensures
            r == self@.contains(id@),
    {
        self.place_of(id).is_some()
    }

    /// Whether nothing is selected.
    pub fn is_empty(&self) -> (r: bool)
        ensures
            r == (self@ =~= Set::<Seq<char>>::empty()),
    {
        let r = self.ids.len() == 0;
        proof {
            if r {
                assert(self@ =~= Set::empty());
            } else {
                assert(texts(self.ids@)[0] == self.ids@[0]@);
                assert(self@.contains(self.ids@[0]@));
            }
        }
        r
    }

    /// How many rows are selected.
    pub fn len(&self) -> (r: usize)
        ensures
            r == self@.len(),
            self@.finite(),
    {
        proof {
            use_type_invariant(self);
            texts(self.ids@).unique_seq_to_set();
        }
        self.ids.len()
    }

    /// Selects the row if it was not selected, and the other way round.
    pub fn toggle(&mut self, id: &str)
        ensures
            final(self)@ == if old(self)@.contains(id@) {
                old(self)@.remove(id@)
            } else {
                old(self)@.insert(id@)
            },
    {
        proof {
            use_type_invariant(&*self);
        }
        match self.place_of(id) {
            Some(k) => {
                let ghost before = self.ids@;
                let mut rest: Vec<String> = Vec::new();
                for j in 0..self.ids.len()
                    invariant
                        k < self.ids@.len(),
                        self.ids@ == before,
                        rest@ == if j <= k {
                            before.take(j as int)
                        } else {
                            before.take(j as int).remove(k as int)
                        },
                {
                    if j != k {
                        rest.push(self.ids[j].clone());
                    }
                    proof {
                        assert(before.take(j as int + 1) =~= before.take(j as int).push(
                            before[j as int],
                        ));
                        if j == k {
                            assert(rest@ =~= before.take(j as int + 1).remove(k as int));
                        } else if j > k {
                            assert(rest@ =~= before.take(j as int + 1).remove(k as int));
                        }
                    }
                }
                proof {
                    assert(before.take(before.len() as int) =~= before);
                    lemma_removed(before, k as int);
                    assert(texts(rest@).to_set() =~= texts(before).to_set().remove(id@));
                }
                self.ids = rest;
            },
            None => {
                let ghost before = self.ids@;
                let mut all: Vec<String> = Vec::new();
                for j in 0..self.ids.len()
                    invariant
                        self.ids@ == before,
                        all@ == before.take(j as int),
                {
                    all.push(self.ids[j].clone());
                }
                all.push(id.to_owned());
                proof {
                    let new = all@.last();
                    assert(all@ =~= before.push(new));
                    assert(texts(all@) =~= texts(before).push(id@));
                    assert(!texts(before).contains(id@));
                    assert(texts(all@).no_duplicates());
                    assert(texts(all@).to_set() =~= texts(before).to_set().insert(id@)) by {
                        assert forall|t: Seq<char>| texts(all@).contains(t) <==> texts(
                            before,
                        ).contains(t) || t == id@ by {
                            if texts(before).contains(t) {
                                let b = choose|b: int|
                                    0 <= b < texts(before).len() && texts(before)[b] == t;
                                assert(texts(all@)[b] == t);
                            }
                            if t == id@ {
                                assert(texts(all@)[before.len() as int] == t);
                            }
                        }
                    }
                }
                self.ids = all;
            },
        }
    }

    /// Nothing selected any more.
    pub fn clear(&mut self)
        ensures
            final(self)@ == Set::<Seq<char>>::empty(),
    {
        *self = Selection::new();
    }

    /// Exactly the given rows.
    pub fn of(ids: &Vec<String>) -> (r: Selection)
        ensures
            r@ == texts(ids@).to_set(),
    {
        let mut r = Selection::new();
        for k in 0..ids.len()
            invariant
                r@ == texts(ids@.take(k as int)).to_set(),
        {
            let ghost before = r@;
            if !r.contains(ids[k].as_str()) {
                r.toggle(ids[k].as_str());
            }
            proof {
                let x = ids@[k as int]@;
                assert(texts(ids@.take(k as int + 1)) =~= texts(ids@.take(k as int)).push(x));
                assert(texts(ids@.take(k as int + 1)).to_set() =~= before.insert(x)) by {
                    let s = texts(ids@.take(k as int));
                    assert forall|t: Seq<char>| s.push(x).contains(t) <==> s.contains(t) || t
                        == x by {
                        if s.contains(t) {
                            let b = choose|b: int| 0 <= b < s.len() && s[b] == t;
                            assert(s.push(x)[b] == t);
                        }
                        if t == x {
                            assert(s.push(x)[s.len() as int] == t);
                        }
                    }
                }
                assert(r@ =~= before.insert(x));
            }
        }
        proof {
            assert(ids@.take(ids@.len() as int) =~= ids@);
            assert(texts(ids@.take(0)) =~= Seq::empty());
        }
        r
    }
}

proof fn lemma_removed(s: Seq<String>, k: int)
    requires
        texts(s).no_duplicates(),
        0 <= k < s.len(),
    ensures
        texts(s.remove(k)).no_duplicates(),
        forall|t: Seq<char>| #[trigger]
            texts(s.remove(k)).contains(t) <==> texts(s).contains(t) && t != s[k]@,
{
    let r = s.remove(k);
    assert forall|i: int, j: int| 0 <= i < j < texts(r).len() implies texts(r)[i] != texts(
        r,
    )[j] by {
        let a = if i < k {
            i
        } else {
            i + 1
        };
        let b = if j < k {
            j
        } else {
            j + 1
        };
        assert(texts(s)[a] != texts(s)[b]);
    }
    assert forall|t: Seq<char>| #[trigger]
        texts(r).contains(t) <==> texts(s).contains(t) && t != s[k]@ by {
        if texts(r).contains(t) {
            let i = choose|i: int| 0 <= i < texts(r).len() && texts(r)[i] == t;
            let a = if i < k {
                i
            } else {
                i + 1
            };
            assert(texts(s)[a] == t);
            assert(texts(s)[a] != texts(s)[k]);
        }
        if texts(s).contains(t) && t != s[k]@ {
            let a = choose|a: int| 0 <= a < texts(s).len() && texts(s)[a] == t;
            let i = if a < k {
                a
            } else {
                a - 1
            };
            assert(texts(r)[i] == t);
        }
    }
}

/// A command that runs in the background: at most one at a time, and the error
/// of the last one.
#[derive(Debug)]
pub struct Command {
    pub busy: bool,
    pub error: Option<String>,
}

impl Command {
    /// No command running.
    pub fn new() -> (r: Command)
        ensures
            !r.busy,
            r.error is None,
    {
        Command { busy: false, error: None }
    }

    /// A command may start now: none is running, and there is a tenant to run
    /// it in.
    pub open spec fn ready(self, tenant: Option<String>) -> bool {
        !self.busy && tenant is Some
    }

    /// Starts a command, unless one is running or there is no tenant. A start
    /// clears the error of the last one.
    pub fn start(&mut self, tenant: &Option<String>) -> (r: bool)
        ensures
            r == old(self).ready(*tenant),
            r == (!old(self).busy && tenant is Some),
            r ==> final(self).busy && final(self).error is None,
            !r ==> *final(self) == *old(self),
    {
        if self.busy || tenant.is_none() {
            return false;
        }
        self.busy = true;
        self.error = None;
        true
    }

    /// The command has ended, with an error or without.
    pub fn finish(&mut self, error: Option<String>)
        ensures
            !final(self).busy,
            final(self).error == if error is Some {
                error
            } else {
                old(self).error
            },
    {
        self.busy = false;
        if error.is_some() {
            self.error = error;
        }
    }
}

/// A success is told in its own words and a failure in those of the error, never
/// one as the other.
pub proof fn what_is_told_is_what_happened(t: Toast, outcome: Result<(), UiError>, words: Seq<char>)
    requires
        told(t, outcome, words),
    ensures
        outcome is Ok <==> t is Success,
        t matches Toast::Success(w) ==> w@ == words,
        t matches Toast::Failure(w) ==> outcome matches Err(e) && w == e.message,
{
}

/// What is reported as a success is one, and in these words.
pub proof fn a_report_is_a_success(t: Toast, words: Seq<char>)
    ensures
        t.reports(words) <==> t is Success && t->Success_0@ == words,
{
}

/// An error counts as a missing consent by its code alone.
pub proof fn the_code_asks_for_consent(e: UiError)
    ensures
        needs_consent(e) <==> e.code@ == "consent_required"@,
{
}

/// An optional text is a given one exactly if it is there and says just that.
pub proof fn a_text_is_itself(a: Option<String>, s: Seq<char>)
    ensures
        is_text(a, s) <==> a is Some && a->0@ == s,
        or_dash(a) == if a is Some {
            a->0@
        } else {
            "—"@
        },
{
}

/// A command may start exactly if none is running and there is a tenant.
pub proof fn a_command_starts_once(c: Command, tenant: Option<String>)
    ensures
        c.ready(tenant) <==> !c.busy && tenant is Some,
{
}

} // verus!
