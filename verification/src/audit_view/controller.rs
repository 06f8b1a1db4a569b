//! The life of an audit run: hydrate, scan, cancel, consent, export, and what a
//! fix leaves behind.

use crate::audit::{AuditItem, IssueMarkers, RemediationAction, RemediationKind};
use crate::audit_view::posture::{counts, posture_counts, PostureCounts};
use crate::session::{holds_text, is_text, UiError};
use crate::text::{count, decimal, same};
use vstd::prelude::*;
use vstd::string::*;

verus! {

/// The result of a run.
#[derive(Debug)]
pub struct AuditRunResult {
    pub items: Vec<AuditItem>,
    pub cancelled: bool,
    pub sign_in_consent_required: bool,
    pub sign_in_report_available: bool,
}

/// How far a scan has come.
#[derive(Debug)]
pub struct AuditProgress {
    pub done: usize,
    pub total: usize,
    pub current_app: Option<String>,
    /// How many requests may be in flight at the moment.
    pub in_flight_cap: usize,
    pub cancelled: bool,
}

/// The cap with which a scan starts.
pub const START_CAP: usize = 8;

/// One audit run and everything around it.
#[derive(Debug)]
pub struct AuditController {
    pub result: Option<AuditRunResult>,
    pub scanning: bool,
    pub progress: Option<AuditProgress>,
    /// The highest cap of the present scan. A cap below it means that the scan
    /// is backing off.
    pub peak_cap: usize,
    pub scan_error: Option<String>,
    pub exporting: bool,
    pub export_msg: Option<String>,
}

/// What a scan starts with.
pub open spec fn fresh(p: AuditProgress) -> bool {
    &&& p.done == 0
    &&& p.total == 0
    &&& p.current_app is None
    &&& p.in_flight_cap == START_CAP
    &&& !p.cancelled
}

/// The greater of two numbers.
pub open spec fn greater(a: usize, b: usize) -> usize {
    if a < b {
        b
    } else {
        a
    }
}

/// What asking for a scan does: nothing while one is running; otherwise the
/// progress starts afresh, and the scan itself where there is a tenant.
pub open spec fn run_asked(
    before: AuditController,
    after: AuditController,
    tenant: bool,
) -> bool {
    if before.scanning {
        after == before
    } else {
        after.progress is Some && fresh(after.progress->0) && after == (AuditController {
            scanning: tenant,
            scan_error: None,
            progress: after.progress,
            peak_cap: greater(before.peak_cap, START_CAP),
            ..before
        })
    }
}

/// The line below the progress bar.
pub open spec fn progress_line(p: AuditProgress) -> Seq<char> {
    decimal(p.done as nat) + " / "@ + decimal(p.total as nat) + " apps  (cap: "@ + decimal(
        p.in_flight_cap as nat,
    ) + (if p.cancelled {
        ", cancelled"@
    } else {
        ""@
    }) + ")"@
}

/// The line below the progress bar.
pub fn progress_text(p: &AuditProgress) -> (r: String)
    ensures
        r@ == progress_line(*p),
        r@ == decimal(p.done as nat) + " / "@ + decimal(p.total as nat) + " apps  (cap: "@
            + decimal(p.in_flight_cap as nat) + (if p.cancelled {
            ", cancelled"@
        } else {
            ""@
        }) + ")"@,
{
    let mut s = count(p.done);
    s.append(" / ");
    s.append(count(p.total).as_str());
    s.append(" apps  (cap: ");
    s.append(count(p.in_flight_cap).as_str());
    s.append(if p.cancelled { ", cancelled" } else { "" });
    s.append(")");
    s
}

/// The backend writes the run to a file: from its own copy, or from the items
/// sent along, which only a cancelled run needs.
#[derive(Debug)]
pub struct ExportRequest {
    pub tenant_id: String,
    pub format: String,
    pub send_items: bool,
}

impl AuditController {
    /// The peak is that of the scan in progress, and nothing without one.
    pub open spec fn well_formed(&self) -> bool {
        match self.progress {
            Some(p) => self.peak_cap >= p.in_flight_cap,
            None => self.peak_cap == 0,
        }
    }

    /// Nothing loaded, nothing running.
    pub fn new() -> (r: AuditController)
        ensures
            r.well_formed(),
            r.result is None,
            !r.scanning,
            r.progress is None,
            r.scan_error is None,
            !r.exporting,
            r.export_msg is None,
    {
        AuditController {
            result: None,
            scanning: false,
            progress: None,
            peak_cap: 0,
            scan_error: None,
            exporting: false,
            export_msg: None,
        }
    }

    /// Another tenant: what belongs to the last one goes at once. Returns the
    /// tenant whose last run is to be loaded.
    pub fn tenant_changed(&mut self, tenant: Option<&str>) -> (r: Option<String>)
        ensures
            final(self).well_formed(),
            *final(self) == (AuditController {
                result: None,
                scan_error: None,
                progress: None,
                peak_cap: 0,
                ..*old(self)
            }),
            r is Some <==> tenant is Some,
            r matches Some(t) ==> t@ == tenant->0@,
    {
        self.result = None;
        self.scan_error = None;
        self.progress = None;
        self.peak_cap = 0;
        match tenant {
            Some(t) => Some(t.to_owned()),
            None => None,
        }
    }

    /// The last run of the tenant `asked` has been loaded. If another tenant is
    /// active by now, it comes too late and is dropped.
    pub fn cached_loaded(
        &mut self,
        asked: &str,
        active: &Option<String>,
        cached: Option<AuditRunResult>,
    )
        requires
            old(self).well_formed(),
        ensures
            final(self).well_formed(),
            is_text(*active, asked@) ==> *final(self) == (AuditController {
                result: cached,
                ..*old(self)
            }),
            !is_text(*active, asked@) ==> *final(self) == *old(self),
    {
        if holds_text(active, asked) {
            self.result = cached;
        }
    }

    /// A progress event of the scan.
    pub fn progressed(&mut self, p: AuditProgress)
        requires
            old(self).well_formed(),
        ensures
            final(self).well_formed(),
            *final(self) == (AuditController {
                progress: Some(p),
                peak_cap: greater(old(self).peak_cap, p.in_flight_cap),
                ..*old(self)
            }),
            final(self).peak_cap >= old(self).peak_cap,
            final(self).peak_cap >= p.in_flight_cap,
            final(self).peak_cap == old(self).peak_cap || final(self).peak_cap == p.in_flight_cap,
    {
        if self.peak_cap < p.in_flight_cap {
            self.peak_cap = p.in_flight_cap;
        }
        self.progress = Some(p);
    }

    /// Starts a scan, unless one is running. Without a tenant there is nothing
    /// to scan. Returns whether the scan is to be started.
    pub fn run(&mut self, tenant: &Option<String>) -> (r: bool)
        requires
            old(self).well_formed(),
        ensures
            final(self).well_formed(),
            r == (!old(self).scanning && tenant is Some),
            run_asked(*old(self), *final(self), tenant is Some),
            old(self).scanning ==> *final(self) == *old(self),
            !old(self).scanning ==> final(self).scanning == tenant is Some
                && final(self).scan_error is None && final(self).progress is Some && final(
                self).result == old(self).result && final(self).exporting == old(self).exporting
                && final(self).export_msg == old(self).export_msg,
            !old(self).scanning ==> final(self).peak_cap >= 8 && final(self).peak_cap >= old(
                self).peak_cap && (final(self).peak_cap == 8 || final(self).peak_cap == old(
                self).peak_cap),
            !old(self).scanning ==> final(self).progress->0.done == 0
                && final(self).progress->0.total == 0 && final(self).progress->0.current_app is None
                && !final(self).progress->0.cancelled && final(self).progress->0.in_flight_cap == 8,
    {
        if self.scanning {
            return false;
        }
        self.scan_error = None;
        self.progressed(
            AuditProgress {
                done: 0,
                total: 0,
                current_app: None,
                in_flight_cap: START_CAP,
                cancelled: false,
            },
        );
        self.scanning = tenant.is_some();
        self.scanning
    }

    /// The scan has ended. Returns whether other screens are to reload what
    /// they show of the last run.
    pub fn run_finished(&mut self, outcome: Result<AuditRunResult, UiError>) -> (r: bool)
        ensures
            final(self).well_formed(),
            r == outcome is Ok,
            !final(self).scanning,
            final(self).progress is None,
            outcome matches Ok(run) ==> final(self).result == Some(run) && final(self).scan_error
                == old(self).scan_error,
            outcome matches Err(e) ==> final(self).result == old(self).result
                && final(self).scan_error == Some(e.message),
            *final(self) == (AuditController {
                result: final(self).result,
                scan_error: final(self).scan_error,
                scanning: false,
                progress: None,
                peak_cap: 0,
                ..*old(self)
            }),
    {
        let reload = match outcome {
            Ok(run) => {
                self.result = Some(run);
                true
            },
            Err(e) => {
                self.scan_error = Some(e.message);
                false
            },
        };
        self.scanning = false;
        self.progress = None;
        self.peak_cap = 0;
        reload
    }

    /// Asks for the consent that the sign-in report needs, unless a scan is
    /// running or there is no tenant. Returns whether to ask.
    pub fn grant_reports_consent(&mut self, tenant: &Option<String>) -> (r: bool)
        requires
            old(self).well_formed(),
        ensures
            final(self).well_formed(),
            r == (!old(self).scanning && tenant is Some),
            r ==> *final(self) == (AuditController { scan_error: None, ..*old(self) }),
            !r ==> *final(self) == *old(self),
    {
        if self.scanning || tenant.is_none() {
            return false;
        }
        self.scan_error = None;
        true
    }

    /// The consent has been given or refused; once given, the audit runs again.
    /// Returns whether a scan is to be started.
    pub fn consent_finished(&mut self, outcome: Result<(), UiError>, tenant: &Option<String>) -> (r:
        bool)
        requires
            old(self).well_formed(),
        ensures
            final(self).well_formed(),
            r == (outcome is Ok && !old(self).scanning && tenant is Some),
            outcome is Ok ==> run_asked(*old(self), *final(self), tenant is Some),
            outcome is Ok && old(self).scanning ==> *final(self) == *old(self),
            outcome is Ok && !old(self).scanning ==> final(self).scanning == tenant is Some
                && final(self).scan_error is None && final(self).progress is Some && final(
                self).progress->0.done == 0 && final(self).progress->0.total == 0 && final(
                self).result == old(self).result,
            outcome matches Err(e) ==> *final(self) == (AuditController {
                scan_error: Some(e.message),
                ..*old(self)
            }),
    {
        match outcome {
            Ok(()) => self.run(tenant),
            Err(e) => {
                self.scan_error = Some(e.message);
                false
            },
        }
    }

    /// Writes the run to a file, unless that is under way, there is no tenant,
    /// or there is nothing to write. The items travel only with a cancelled
    /// run, which the backend does not keep.
    pub fn export(&mut self, format: &str, tenant: &Option<String>) -> (r: Option<ExportRequest>)
        requires
            old(self).well_formed(),
        ensures
            final(self).well_formed(),
            r is Some <==> !old(self).exporting && tenant is Some && old(self).result is Some
                && old(self).result->0.items@.len() > 0,
            r matches Some(req) ==> {
                &&& req.tenant_id == tenant->0
                &&& req.format@ == format@
                &&& req.send_items == old(self).result->0.cancelled
                &&& *final(self) == (AuditController {
                    exporting: true,
                    export_msg: None,
                    ..*old(self)
                })
            },
            r is None ==> *final(self) == *old(self),
    {
        if self.exporting {
            return None;
        }
        let tenant_id = match tenant {
            Some(t) => t.clone(),
            None => {
                return None;
            },
        };
        let send_items = match &self.result {
            Some(run) => {
                if run.items.len() == 0 {
                    return None;
                }
                run.cancelled
            },
            None => {
                return None;
            },
        };
        self.exporting = true;
        self.export_msg = None;
        Some(ExportRequest { tenant_id, format: format.to_owned(), send_items })
    }

    /// The file has been written, the dialog was closed without a choice, or
    /// writing failed.
    pub fn export_finished(&mut self, outcome: Result<Option<String>, UiError>)
        requires
            old(self).well_formed(),
        ensures
            final(self).well_formed(),
            outcome matches Ok(Some(path)) ==> is_text(
                final(self).export_msg,
                "Saved to "@ + path@,
            ),
            outcome matches Ok(None) ==> final(self).export_msg == old(self).export_msg,
            outcome matches Err(e) ==> is_text(
                final(self).export_msg,
                "Export failed: "@ + e.message@,
            ),
            *final(self) == (AuditController {
                exporting: false,
                export_msg: final(self).export_msg,
                ..*old(self)
            }),
    {
        match outcome {
            Ok(Some(path)) => {
                let mut s = "Saved to ".to_owned();
                s.append(path.as_str());
                self.export_msg = Some(s);
            },
            Ok(None) => {},
            Err(e) => {
                let mut s = "Export failed: ".to_owned();
                s.append(e.message.as_str());
                self.export_msg = Some(s);
            },
        }
        self.exporting = false;
    }

    /// Whether "Export" can be used.
    pub fn export_disabled(&self) -> (r: bool)
        ensures
            r == (self.exporting || self.result is None),
    {
        self.exporting || self.result.is_none()
    }

    /// Whether the last run found the consent for the sign-in report missing.
    pub fn consent_needed(&self) -> (r: bool)
        ensures
            r == (self.result is Some && self.result->0.sign_in_consent_required),
    {
        match &self.result {
            Some(run) => run.sign_in_consent_required,
            None => false,
        }
    }

    /// How many items the run has.
    pub fn total_items(&self) -> (r: Option<usize>)
        ensures
            r is Some <==> self.result is Some,
            r matches Some(n) ==> n == self.result->0.items@.len(),
    {
        match &self.result {
            Some(run) => Some(run.items.len()),
            None => None,
        }
    }

    /// Whether the run could read the sign-in report.
    pub fn report_available(&self) -> (r: bool)
        ensures
            r == (self.result is Some && self.result->0.sign_in_report_available),
    {
        match &self.result {
            Some(run) => run.sign_in_report_available,
            None => false,
        }
    }

    /// The counts of the run.
    pub fn posture(&self, m: &IssueMarkers) -> (r: Option<PostureCounts>)
        ensures
            r is Some <==> self.result is Some,
            r matches Some(c) ==> counts(*m, self.result->0.items@, c),
    {
        match &self.result {
            Some(run) => Some(posture_counts(m, run.items.as_slice())),
            None => None,
        }
    }

    /// A fix of one kind has been applied to the item `object_id`: that fix is
    /// gone from the item, the others stay.
    pub fn on_remediated(&mut self, object_id: &str, kind: RemediationKind)
        requires
            old(self).well_formed(),
        ensures
            final(self).well_formed(),
            final(self).result is Some <==> old(self).result is Some,
            final(self).result is Some ==> {
                &&& fix_dropped(
                    old(self).result->0.items@,
                    final(self).result->0.items@,
                    object_id@,
                    |a: RemediationAction| a.kind != kind,
                )
                &&& final(self).result->0 == (AuditRunResult {
                    items: final(self).result->0.items,
                    ..old(self).result->0
                })
            },
            *final(self) == (AuditController { result: final(self).result, ..*old(self) }),
    {
        match &mut self.result {
            Some(run) => {
                drop_fix(&mut run.items, object_id, Some(kind));
            },
            None => {},
        }
    }

    /// A fix has been applied to the item `object_id` on a surface that offers
    /// one fix per item: the item has none left.
    pub fn clear_fixes(&mut self, object_id: &str)
        requires
            old(self).well_formed(),
        ensures
            final(self).well_formed(),
            final(self).result is Some <==> old(self).result is Some,
            final(self).result is Some ==> {
                &&& fix_dropped(
                    old(self).result->0.items@,
                    final(self).result->0.items@,
                    object_id@,
                    |a: RemediationAction| false,
                )
                &&& final(self).result->0 == (AuditRunResult {
                    items: final(self).result->0.items,
                    ..old(self).result->0
                })
            },
            *final(self) == (AuditController { result: final(self).result, ..*old(self) }),
    {
        match &mut self.result {
            Some(run) => {
                drop_fix(&mut run.items, object_id, None);
            },
            None => {},
        }
    }
}

/// `i` is the first item with the id.
pub open spec fn first_with_id(items: Seq<AuditItem>, id: Seq<char>, i: int) -> bool {
    &&& 0 <= i < items.len()
    &&& items[i].object_id@ == id
    &&& forall|j: int| 0 <= j < i ==> (#[trigger] items[j]).object_id@ != id
}

/// The fixes that satisfy `keep`, in order.
pub open spec fn kept(
    fixes: Seq<RemediationAction>,
    keep: spec_fn(RemediationAction) -> bool,
) -> Seq<RemediationAction>
    decreases fixes.len(),
{
    if fixes.len() == 0 {
        Seq::empty()
    } else {
        let before = kept(fixes.drop_last(), keep);
        if keep(fixes.last()) {
            before.push(fixes.last())
        } else {
            before
        }
    }
}

/// The first item with the id has only the fixes left that satisfy `keep`;
/// everything else is as it was.
pub open spec fn fix_dropped(
    before: Seq<AuditItem>,
    after: Seq<AuditItem>,
    id: Seq<char>,
    keep: spec_fn(RemediationAction) -> bool,
) -> bool {
    &&& after.len() == before.len()
    &&& forall|i: int| #![trigger after[i]]
        0 <= i < before.len() ==> if first_with_id(before, id, i) {
            &&& after[i].remediations@ == kept(before[i].remediations@, keep)
            &&& after[i] == (AuditItem { remediations: after[i].remediations, ..before[i] })
        } else {
            after[i] == before[i]
        }
}

/// What is to be kept: the fixes that are not of the kind, or none at all.
spec fn others(kind: Option<RemediationKind>) -> spec_fn(RemediationAction) -> bool {
    match kind {
        Some(k) => |a: RemediationAction| a.kind != k,
        None => |a: RemediationAction| false,
    }
}

/// Takes away the fixes of the kind, or all of them.
fn keep_others(fixes: &mut Vec<RemediationAction>, kind: Option<RemediationKind>)
    ensures
        final(fixes)@ == kept(old(fixes)@, others(kind)),
{
    let ghost all = fixes@;
    let ghost mut n: int = 0;
    let mut i: usize = 0;
    proof {
        assert(all.take(0) =~= Seq::empty());
        assert(fixes@ =~= kept(all.take(0), others(kind)) + all.skip(0));
    }
    while i < fixes.len()
        invariant
            0 <= n <= all.len(),
            i == kept(all.take(n), others(kind)).len(),
            fixes@ == kept(all.take(n), others(kind)) + all.skip(n),
        decreases fixes.len() - i,
    {
        let keeps = match kind {
            Some(k) => fixes[i].kind != k,
            None => false,
        };
        let ghost front = kept(all.take(n), others(kind));
        proof {
            assert(n < all.len());
            assert(fixes@[i as int] == all[n]);
            assert(all.take(n + 1).drop_last() =~= all.take(n));
            assert(all.take(n + 1).last() == all[n]);
            assert(all.skip(n) =~= seq![all[n]] + all.skip(n + 1));
        }
        if keeps {
            proof {
                assert(fixes@ =~= front.push(all[n]) + all.skip(n + 1));
            }
            i += 1;
        } else {
            let ghost before = fixes@;
            let _ = fixes.remove(i);
            proof {
                assert(fixes@ =~= front + all.skip(n + 1));
            }
        }
        proof {
            n = n + 1;
        }
    }
    proof {
        assert(n == all.len());
        assert(all.take(n) =~= all);
        assert(fixes@ =~= kept(all, others(kind)));
    }
}

/// Takes the fix away from the first item with the id.
fn drop_fix(items: &mut Vec<AuditItem>, object_id: &str, kind: Option<RemediationKind>)
    ensures
        fix_dropped(old(items)@, final(items)@, object_id@, others(kind)),
{
    let ghost all = items@;
    let n = items.len();
    for i in 0..n
        invariant
            items@ == all,
            all == old(items)@,
            n == all.len(),
            forall|j: int| 0 <= j < i ==> (#[trigger] all[j]).object_id@ != object_id@,
    {
        if same(items[i].object_id.as_str(), object_id) {
            assert(first_with_id(all, object_id@, i as int));
            keep_others(&mut items[i].remediations, kind);
            proof {
                assert forall|j: int| 0 <= j < all.len() && j != i implies !first_with_id(
                    all,
                    object_id@,
                    j,
                ) by {
                    assert(all[i as int].object_id@ == object_id@);
                    if j < i {
                        assert(all[j].object_id@ != object_id@);
                    }
                }
            }
            return;
        }
    }
}

/// A fix that is dropped is gone for good, and no other fix of the item goes
/// with it: what is left are the fixes of the other kinds.
pub proof fn only_the_applied_fix_goes(
    fixes: Seq<RemediationAction>,
    kind: RemediationKind,
    a: RemediationAction,
)
    ensures
        kept(fixes, |x: RemediationAction| x.kind != kind).contains(a) <==> fixes.contains(a)
            && a.kind != kind,
    decreases fixes.len(),
{
    let keep = |x: RemediationAction| x.kind != kind;
    if fixes.len() > 0 {
        let init = fixes.drop_last();
        only_the_applied_fix_goes(init, kind, a);
        let k = kept(init, keep);
        assert(fixes =~= init.push(fixes.last()));
        if init.contains(a) {
            let i = choose|i: int| 0 <= i < init.len() && init[i] == a;
            assert(fixes[i] == a);
        }
        if k.contains(a) {
            let i = choose|i: int| 0 <= i < k.len() && k[i] == a;
            assert(kept(fixes, keep)[i] == a);
        }
        if fixes.last() == a {
            assert(fixes[fixes.len() - 1] == a);
            if a.kind != kind {
                assert(kept(fixes, keep)[k.len() as int] == a);
            }
        }
        if kept(fixes, keep).contains(a) && !k.contains(a) {
            let i = choose|i: int| 0 <= i < kept(fixes, keep).len() && kept(fixes, keep)[i] == a;
            if i < k.len() {
                assert(k[i] == a);
            }
        }
        if fixes.contains(a) && fixes.last() != a {
            let i = choose|i: int| 0 <= i < fixes.len() && fixes[i] == a;
            assert(init[i] == a);
        }
    }
}

/// After a fix only the first item with the id has changed, and of it nothing but
/// its fixes: those to be kept are there, in their order, and no others.
pub proof fn a_fix_touches_one_item(
    before: Seq<AuditItem>,
    after: Seq<AuditItem>,
    id: Seq<char>,
    keep: spec_fn(RemediationAction) -> bool,
    i: int,
)
    requires
        fix_dropped(before, after, id, keep),
        0 <= i < before.len(),
    ensures
        after.len() == before.len(),
        before[i].object_id@ != id ==> after[i] == before[i],
        (exists|j: int| 0 <= j < i && (#[trigger] before[j]).object_id@ == id) ==> after[i]
            == before[i],
        before[i].object_id@ == id && (forall|j: int|
            0 <= j < i ==> (#[trigger] before[j]).object_id@ != id) ==> after[i].remediations@
            == before[i].remediations@.filter(keep) && after[i] == (AuditItem {
            remediations: after[i].remediations,
            ..before[i]
        }),
{
    assert(after[i] == after[i]);
    if first_with_id(before, id, i) {
        lemma_kept_is_filter(before[i].remediations@, keep);
    }
}

proof fn lemma_kept_is_filter(fixes: Seq<RemediationAction>, keep: spec_fn(RemediationAction) -> bool)
    ensures
        kept(fixes, keep) == fixes.filter(keep),
    decreases fixes.len(),
{
    reveal(Seq::filter);
    if fixes.len() > 0 {
        lemma_kept_is_filter(fixes.drop_last(), keep);
    }
}

} // verus!
