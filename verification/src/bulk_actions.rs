//! Creating many apps at once, and acting on the selected ones.

use crate::disaster_recovery::RunProgress;
use crate::session::{is_text, UiError};
use crate::text::{cat3, count, decimal, same};
use vstd::prelude::*;
use vstd::string::*;

verus! {

/// What has become of one app.
#[derive(Debug)]
pub struct BulkOutcome {
    pub display_name: String,
    pub status: String,
    pub message: Option<String>,
}

/// What a run reports.
#[derive(Debug)]
pub struct BulkCreateReport {
    pub outcomes: Vec<BulkOutcome>,
    pub validate_only: bool,
    pub cancelled: bool,
}

/// An app that could not be created, and why.
#[derive(Debug)]
pub struct BulkFailure {
    pub label: String,
    pub reason: String,
}

/// The app was created, or would be.
pub open spec fn went_well(o: BulkOutcome) -> bool {
    o.status@ == "created"@ || o.status@ == "valid"@
}

/// Why an app was not created: the message, or else the status.
pub open spec fn reason_of(o: BulkOutcome) -> String {
    match o.message {
        Some(m) => m,
        None => o.status,
    }
}

/// The apps that could not be created, in order.
pub open spec fn problems(outcomes: Seq<BulkOutcome>) -> Seq<BulkFailure>
    decreases outcomes.len(),
{
    if outcomes.len() == 0 {
        Seq::empty()
    } else {
        let before = problems(outcomes.drop_last());
        let o = outcomes.last();
        if went_well(o) {
            before
        } else {
            before.push(BulkFailure { label: o.display_name, reason: reason_of(o) })
        }
    }
}

proof fn lemma_problems_fit(outcomes: Seq<BulkOutcome>)
    ensures
        problems(outcomes).len() <= outcomes.len(),
    decreases outcomes.len(),
{
    if outcomes.len() > 0 {
        lemma_problems_fit(outcomes.drop_last());
    }
}

/// The apps that could not be created, in order.
pub fn failures_of(outcomes: &Vec<BulkOutcome>) -> (r: Vec<BulkFailure>)
    ensures
        r@ == problems(outcomes@),
        r@.len() == 0 <==> forall|k: int|
            0 <= k < outcomes@.len() ==> (#[trigger] outcomes@[k]).status@ == "created"@
                || outcomes@[k].status@ == "valid"@,
        forall|k: int|
            0 <= k < outcomes@.len() && (#[trigger] outcomes@[k]).status@ != "created"@
                && outcomes@[k].status@ != "valid"@ ==> r@.contains(
                BulkFailure {
                    label: outcomes@[k].display_name,
                    reason: match outcomes@[k].message {
                        Some(m) => m,
                        None => outcomes@[k].status,
                    },
                },
            ),
        r@.len() <= outcomes@.len(),
{
    let mut out: Vec<BulkFailure> = Vec::new();
    proof {
        assert(outcomes@.take(0) =~= Seq::empty());
    }
    for k in 0..outcomes.len()
        invariant
            out@ == problems(outcomes@.take(k as int)),
    {
        proof {
            assert(outcomes@.take(k as int + 1).drop_last() =~= outcomes@.take(k as int));
            assert(outcomes@.take(k as int + 1).last() == outcomes@[k as int]);
        }
        let o = &outcomes[k];
        if !same(o.status.as_str(), "created") && !same(o.status.as_str(), "valid") {
            let reason = match &o.message {
                Some(m) => m.clone(),
                None => o.status.clone(),
            };
            out.push(BulkFailure { label: o.display_name.clone(), reason });
        }
    }
    proof {
        assert(outcomes@.take(outcomes@.len() as int) =~= outcomes@);
        every_other_status_is_a_failure(outcomes@);
        lemma_problems_fit(outcomes@);
    }
    out
}

/// Nothing fails exactly if every status is "created" or "valid", and every outcome
/// with another status is among the failures, under its name and with its message,
/// or else its status.
pub proof fn every_other_status_is_a_failure(outcomes: Seq<BulkOutcome>)
    ensures
        problems(outcomes).len() == 0 <==> forall|k: int|
            0 <= k < outcomes.len() ==> (#[trigger] outcomes[k]).status@ == "created"@
                || outcomes[k].status@ == "valid"@,
        forall|k: int|
            0 <= k < outcomes.len() && (#[trigger] outcomes[k]).status@ != "created"@
                && outcomes[k].status@ != "valid"@ ==> problems(outcomes).contains(
                BulkFailure {
                    label: outcomes[k].display_name,
                    reason: match outcomes[k].message {
                        Some(m) => m,
                        None => outcomes[k].status,
                    },
                },
            ),
    decreases outcomes.len(),
{
    if outcomes.len() > 0 {
        let rest = outcomes.drop_last();
        let n = outcomes.len() - 1;
        let o = outcomes[n];
        every_other_status_is_a_failure(rest);
        assert(forall|k: int| 0 <= k < n ==> rest[k] == #[trigger] outcomes[k]);
        assert forall|f: BulkFailure| problems(rest).contains(f) implies #[trigger] problems(
            outcomes,
        ).contains(f) by {
            let j = choose|j: int| 0 <= j < problems(rest).len() && problems(rest)[j] == f;
            assert(problems(outcomes)[j] == f);
        }
        if o.status@ != "created"@ && o.status@ != "valid"@ {
            let f = BulkFailure { label: o.display_name, reason: reason_of(o) };
            assert(problems(outcomes)[problems(rest).len() as int] == f);
        }
        assert forall|k: int|
            0 <= k < outcomes.len() && (#[trigger] outcomes[k]).status@ != "created"@
                && outcomes[k].status@ != "valid"@ implies problems(outcomes).contains(
            BulkFailure {
                label: outcomes[k].display_name,
                reason: match outcomes[k].message {
                    Some(m) => m,
                    None => outcomes[k].status,
                },
            },
        ) by {
            if k < n {
                assert(rest[k] == outcomes[k]);
            }
        }
        if problems(outcomes).len() == 0 {
            assert forall|k: int| 0 <= k < outcomes.len() implies (#[trigger] outcomes[k]).status@
                == "created"@ || outcomes[k].status@ == "valid"@ by {
                if k < n {
                    assert(rest[k] == outcomes[k]);
                }
            }
        } else if forall|k: int|
            0 <= k < outcomes.len() ==> (#[trigger] outcomes[k]).status@ == "created"@
                || outcomes[k].status@ == "valid"@ {
            assert forall|k: int| 0 <= k < rest.len() implies (#[trigger] rest[k]).status@
                == "created"@ || rest[k].status@ == "valid"@ by {
                assert(rest[k] == outcomes[k]);
            }
            assert(outcomes[n].status@ == "created"@ || outcomes[n].status@ == "valid"@);
        }
    }
}

/// One outcome is one failure or none, by its status alone, and the failures of two
/// reports stand one after the other.
pub proof fn failures_stand_outcome_by_outcome(
    o: BulkOutcome,
    a: Seq<BulkOutcome>,
    b: Seq<BulkOutcome>,
)
    ensures
        o.status@ == "created"@ || o.status@ == "valid"@ ==> problems(seq![o]).len() == 0,
        o.status@ != "created"@ && o.status@ != "valid"@ ==> problems(seq![o]) == seq![
            BulkFailure {
                label: o.display_name,
                reason: match o.message {
                    Some(m) => m,
                    None => o.status,
                },
            },
        ],
        problems(a + b) == problems(a) + problems(b),
    decreases b.len(),
{
    reveal_with_fuel(problems, 2);
    assert(seq![o].drop_last() =~= Seq::<BulkOutcome>::empty());
    assert(Seq::<BulkFailure>::empty().push(
        BulkFailure { label: o.display_name, reason: reason_of(o) },
    ) =~= seq![BulkFailure { label: o.display_name, reason: reason_of(o) }]);
    if b.len() == 0 {
        assert(a + b =~= a);
        assert(problems(a) + problems(b) =~= problems(a));
    } else {
        failures_stand_outcome_by_outcome(o, a, b.drop_last());
        assert((a + b).drop_last() =~= a + b.drop_last());
        assert((a + b).last() == b.last());
        assert(problems(a + b) =~= problems(a) + problems(b));
    }
}

/// The line of a run.
pub open spec fn summary_line(r: BulkCreateReport) -> Seq<char> {
    let bad = problems(r.outcomes@).len();
    (if r.validate_only {
        "Validated"@
    } else {
        "Created"@
    }) + ": "@ + decimal((r.outcomes@.len() - bad) as nat) + " ok, "@ + decimal(bad)
        + " problem(s)"@ + (if r.cancelled {
        " (cancelled)"@
    } else {
        ""@
    }) + "."@
}

/// The view, with its form for creating apps.
#[derive(Debug)]
pub struct BulkActionsView {
    pub tab: String,
    pub busy: bool,
    pub summary: Option<String>,
    pub failures: Vec<BulkFailure>,
    pub error: Option<String>,
    pub progress: Option<RunProgress>,
    pub cancelling: bool,
    pub create_json: String,
}

impl BulkActionsView {
    /// What holds at all times: only a run can be cancelled.
    pub open spec fn well_formed(self) -> bool {
        self.cancelling ==> self.busy
    }

    /// On the tab of the selected apps, with nothing run.
    pub fn new() -> (r: BulkActionsView)
        ensures
            r.well_formed(),
            r.tab@ == "selected"@,
            !r.busy,
            r.summary is None,
            r.failures@.len() == 0,
            r.error is None,
            r.progress is None,
            r.create_json@.len() == 0,
    {
        BulkActionsView {
            tab: "selected".to_owned(),
            busy: false,
            summary: None,
            failures: Vec::new(),
            error: None,
            progress: None,
            cancelling: false,
            create_json: String::new(),
        }
    }

    /// Whether the form shows; otherwise the selected apps do.
    pub fn creates(&self) -> (r: bool)
        ensures
            r == (self.tab@ == "create"@),
    {
        same(self.tab.as_str(), "create")
    }

    /// Another tab: what the last run said goes.
    pub fn set_tab(&mut self, tab: String)
        ensures
            final(self).failures@.len() == 0,
            *final(self) == (BulkActionsView {
                tab,
                summary: None,
                failures: final(self).failures,
                error: None,
                progress: None,
                ..*old(self)
            }),
    {
        self.tab = tab;
        self.summary = None;
        self.failures = Vec::new();
        self.error = None;
        self.progress = None;
    }

    /// "Cancel". Returns whether to ask the backend.
    pub fn do_cancel(&mut self) -> (r: bool)
        requires
            old(self).well_formed(),
        ensures
            final(self).well_formed(),
            r == (old(self).busy && !old(self).cancelling),
            *final(self) == (BulkActionsView {
                cancelling: old(self).cancelling || r,
                ..*old(self)
            }),
    {
        if self.cancelling || !self.busy {
            return false;
        }
        self.cancelling = true;
        true
    }

    /// "Validate" or "Create apps". `specs` is what the form reads as, or what is
    /// wrong with it. Returns the apps to create.
    pub fn do_create<S>(
        &mut self,
        specs: Result<Vec<S>, String>,
        tenant: &Option<String>,
    ) -> (r: Option<Vec<S>>)
        requires
            old(self).well_formed(),
        ensures
            final(self).well_formed(),
            r is Some <==> !old(self).busy && specs is Ok && specs->Ok_0@.len() > 0
                && tenant is Some,
            r matches Some(s) ==> Ok::<Vec<S>, String>(s) == specs,
            old(self).busy ==> *final(self) == *old(self),
            !old(self).busy ==> match specs {
                Err(e) => is_text(final(self).error, "Invalid JSON: "@ + e@) && *final(self) == (
                BulkActionsView { error: final(self).error, ..*old(self) }),
                Ok(s) => if s@.len() == 0 {
                    is_text(final(self).error, "JSON array is empty."@) && *final(self) == (
                    BulkActionsView { error: final(self).error, ..*old(self) })
                } else {
                    final(self).failures@.len() == 0 && *final(self) == (BulkActionsView {
                        busy: tenant is Some,
                        summary: None,
                        failures: final(self).failures,
                        error: None,
                        ..*old(self)
                    })
                },
            },
    {
        if self.busy {
            return None;
        }
        match specs {
            Err(e) => {
                let mut s = "Invalid JSON: ".to_owned();
                s.append(e.as_str());
                self.error = Some(s);
                None
            },
            Ok(s) => {
                if s.len() == 0 {
                    self.error = Some("JSON array is empty.".to_owned());
                    return None;
                }
                self.summary = None;
                self.failures = Vec::new();
                self.error = None;
                if tenant.is_none() {
                    return None;
                }
                self.busy = true;
                Some(s)
            },
        }
    }

    /// The run has ended. Returns whether the list of apps is to be read again:
    /// not after a validation, nor after a run that was cancelled.
    pub fn created(&mut self, outcome: Result<BulkCreateReport, UiError>) -> (r: bool)
        requires
            old(self).well_formed(),
        ensures
            final(self).well_formed(),
            r == (outcome is Ok && !outcome->Ok_0.validate_only && !outcome->Ok_0.cancelled),
            outcome matches Ok(report) ==> final(self).failures@ == problems(report.outcomes@)
                && is_text(final(self).summary, summary_line(report)) && *final(self) == (
            BulkActionsView {
                busy: false,
                cancelling: false,
                summary: final(self).summary,
                failures: final(self).failures,
                ..*old(self)
            }),
            outcome matches Ok(report) ==> final(self).summary is Some && final(self).summary->0@
                == (if report.validate_only {
                "Validated"@
            } else {
                "Created"@
            }) + ": "@ + decimal((report.outcomes@.len() - final(self).failures@.len()) as nat)
                + " ok, "@ + decimal(final(self).failures@.len()) + " problem(s)"@ + (
            if report.cancelled {
                " (cancelled)"@
            } else {
                ""@
            }) + "."@,
            outcome matches Err(e) ==> *final(self) == (BulkActionsView {
                busy: false,
                cancelling: false,
                error: Some(e.message),
                ..*old(self)
            }),
    {
        self.busy = false;
        self.cancelling = false;
        match outcome {
            Ok(report) => {
                let fails = failures_of(&report.outcomes);
                proof {
                    lemma_problems_fit(report.outcomes@);
                }
                let ok: usize = report.outcomes.len() - fails.len();
                let mut s = cat3(
                    if report.validate_only {
                        "Validated"
                    } else {
                        "Created"
                    },
                    ": ",
                    count(ok).as_str(),
                );
                s.append(" ok, ");
                s.append(count(fails.len()).as_str());
                s.append(" problem(s)");
                s.append(
                    if report.cancelled {
                        " (cancelled)"
                    } else {
                        ""
                    },
                );
                s.append(".");
                self.summary = Some(s);
                self.failures = fails;
                !report.validate_only && !report.cancelled
            },
            Err(e) => {
                self.error = Some(e.message);
                false
            },
        }
    }

    /// The class of the summary.
    pub fn summary_class(&self) -> (r: &'static str)
        ensures
            r@ == if self.failures@.len() == 0 {
                "alert alert--ok"@
            } else {
                "alert alert--warn"@
            },
    {
        if self.failures.len() == 0 {
            "alert alert--ok"
        } else {
            "alert alert--warn"
        }
    }

    /// The line above the failures; none where there are none.
    pub fn failures_title(&self) -> (r: Option<String>)
        ensures
            r is None <==> self.failures@.len() == 0,
            r matches Some(t) ==> t@ == decimal(self.failures@.len()) + " item(s) failed:"@,
    {
        if self.failures.len() == 0 {
            return None;
        }
        let mut s = count(self.failures.len());
        s.append(" item(s) failed:");
        Some(s)
    }

    /// The line beside the spinner.
    pub fn working_line(&self) -> (r: String)
        ensures
            r@ == match self.progress {
                Some(p) => if p.total > 0 {
                    "Working… ("@ + decimal(p.done as nat) + "/"@ + decimal(p.total as nat) + ")"@
                } else {
                    "Working…"@
                },
                None => "Working…"@,
            },
    {
        match &self.progress {
            Some(p) if p.total > 0 => {
                let mut s = cat3("Working… (", count(p.done).as_str(), "/");
                s.append(count(p.total).as_str());
                s.append(")");
                s
            },
            _ => "Working…".to_owned(),
        }
    }

    /// The text of the cancel button.
    pub fn cancel_label(&self) -> (r: &'static str)
        ensures
            r@ == if self.cancelling {
                "Cancelling…"@
            } else {
                "Cancel"@
            },
    {
        if self.cancelling {
            "Cancelling…"
        } else {
            "Cancel"
        }
    }
}

} // verus!
