//! Disaster recovery: backing up a tenant into a manifest, and restoring a
//! manifest into a tenant. Values of secrets are in no backup: a restore makes
//! new ones and shows them once.

use crate::session::{is_text, Toast, UiError};
use crate::text::{cat3, count, decimal, join, joined, same, texts};
use vstd::prelude::*;
use vstd::string::*;

verus! {

/// How far a run has come.
#[derive(Debug)]
pub struct RunProgress {
    pub done: usize,
    pub total: usize,
    pub current_app: Option<String>,
}

/// The line of a run: what has been done, and what is being worked on.
pub open spec fn progress_line(verb: Seq<char>, p: RunProgress) -> Seq<char> {
    let head = verb + " "@ + decimal(p.done as nat) + "/"@ + decimal(p.total as nat);
    match p.current_app {
        Some(n) => head + (" — "@ + n@),
        None => head,
    }
}

/// The line of a run.
pub fn progress_text(verb: &str, p: &RunProgress) -> (r: String)
    ensures
        r@ == progress_line(verb@, *p),
        p.current_app is None ==> r@ == verb@ + " "@ + decimal(p.done as nat) + "/"@ + decimal(
            p.total as nat,
        ),
        p.current_app matches Some(n) ==> r@ == verb@ + " "@ + decimal(p.done as nat) + "/"@
            + decimal(p.total as nat) + (" — "@ + n@),
{
    let mut s = cat3(verb, " ", count(p.done).as_str());
    s.append("/");
    s.append(count(p.total).as_str());
    match &p.current_app {
        Some(n) => {
            let ghost head = s@;
            s.append(" — ");
            s.append(n.as_str());
            proof {
                assert(s@ =~= head + (" — "@ + n@));
            }
        },
        None => {},
    }
    s
}

/// The sum of a list of numbers.
pub open spec fn sum(s: Seq<usize>) -> nat
    decreases s.len(),
{
    if s.len() == 0 {
        0
    } else {
        sum(s.drop_last()) + s.last() as nat
    }
}

proof fn lemma_sum_grows(s: Seq<usize>, k: int)
    requires
        0 <= k <= s.len(),
    ensures
        sum(s.take(k)) <= sum(s),
    decreases s.len() - k,
{
    if k < s.len() {
        assert(s.take(k + 1).drop_last() =~= s.take(k));
        lemma_sum_grows(s, k + 1);
    } else {
        assert(s.take(k) =~= s);
    }
}

/// The sum of a list of numbers, if it can be held.
pub fn total(s: &Vec<usize>) -> (r: Option<usize>)
    ensures
        r is Some <==> sum(s@) <= usize::MAX,
        r matches Some(n) ==> n == sum(s@),
{
    let mut n: usize = 0;
    proof {
        assert(s@.take(0) =~= Seq::empty());
    }
    for k in 0..s.len()
        invariant
            n == sum(s@.take(k as int)),
    {
        proof {
            assert(s@.take(k as int + 1).drop_last() =~= s@.take(k as int));
            assert(s@.take(k as int + 1).last() == s@[k as int]);
            lemma_sum_grows(s@, k as int + 1);
        }
        match n.checked_add(s[k]) {
            Some(m) => {
                n = m;
            },
            None => {
                return None;
            },
        }
    }
    proof {
        assert(s@.take(s@.len() as int) =~= s@);
    }
    Some(n)
}

/// What a manifest holds, counted.
#[derive(Clone, Copy, Debug, PartialEq, Eq, Structural)]
pub struct BackupSummary {
    pub app_registrations: usize,
    pub enterprise_apps: usize,
    pub managed_identities: usize,
    pub secrets: usize,
}

/// The three kinds of principals in a manifest.
pub open spec fn holdings(b: BackupSummary) -> Seq<char> {
    decimal(b.app_registrations as nat) + " app registration(s), "@ + decimal(
        b.enterprise_apps as nat,
    ) + " enterprise app(s), "@ + decimal(b.managed_identities as nat) + " managed identity(ies). "@
}

impl BackupSummary {
    /// The summary of a manifest: `app_secrets` is the number of secrets of each
    /// app registration. Nothing where their sum cannot be held.
    pub fn new(app_secrets: &Vec<usize>, enterprise_apps: usize, managed_identities: usize) -> (r:
        Option<BackupSummary>)
        ensures
            r is Some <==> sum(app_secrets@) <= usize::MAX,
            r matches Some(b) ==> b.app_registrations == app_secrets@.len() && b.enterprise_apps
                == enterprise_apps && b.managed_identities == managed_identities && b.secrets
                == sum(app_secrets@),
    {
        match total(app_secrets) {
            None => None,
            Some(secrets) => Some(
                BackupSummary {
                    app_registrations: app_secrets.len(),
                    enterprise_apps,
                    managed_identities,
                    secrets,
                },
            ),
        }
    }

    fn holdings_text(&self) -> (r: String)
        ensures
            r@ == holdings(*self),
    {
        let mut s = count(self.app_registrations);
        s.append(" app registration(s), ");
        s.append(count(self.enterprise_apps).as_str());
        s.append(" enterprise app(s), ");
        s.append(count(self.managed_identities).as_str());
        s.append(" managed identity(ies). ");
        s
    }

    /// What is said of a finished backup.
    pub fn captured_line(&self) -> (r: String)
        ensures
            r@ == "Backed up "@ + holdings(*self) + "Save it to a file to keep it."@,
            r@ == "Backed up "@ + (decimal(self.app_registrations as nat)
                + " app registration(s), "@ + decimal(self.enterprise_apps as nat)
                + " enterprise app(s), "@ + decimal(self.managed_identities as nat)
                + " managed identity(ies). "@) + "Save it to a file to keep it."@,
    {
        cat3("Backed up ", self.holdings_text().as_str(), "Save it to a file to keep it.")
    }

    /// What stands above the button that saves the manifest.
    pub fn ready_line(&self) -> (r: String)
        ensures
            r@ == "Ready: "@ + holdings(*self) + decimal(self.secrets as nat)
                + " secret(s) will need regeneration on restore."@,
            r@ == "Ready: "@ + (decimal(self.app_registrations as nat)
                + " app registration(s), "@ + decimal(self.enterprise_apps as nat)
                + " enterprise app(s), "@ + decimal(self.managed_identities as nat)
                + " managed identity(ies). "@) + decimal(self.secrets as nat)
                + " secret(s) will need regeneration on restore."@,
    {
        let mut s = cat3("Ready: ", self.holdings_text().as_str(), count(self.secrets).as_str());
        s.append(" secret(s) will need regeneration on restore.");
        s
    }
}

/// The clouds of a manifest and of this application, where they differ.
#[derive(Debug)]
pub struct CloudMismatch {
    pub backup_cloud: String,
    pub destination_cloud: String,
}

/// What a restore would do.
#[derive(Debug)]
pub struct RestorePlan {
    pub cloud_mismatch: Option<CloudMismatch>,
    pub tenant_changed: bool,
    pub source_tenant_id: String,
    pub destination_tenant_id: String,
    pub app_registrations_to_create: usize,
    pub secrets_to_regenerate: usize,
    pub certificates_needing_manual_upload: usize,
    pub federated_credentials_to_restore: usize,
    pub owners_to_remap: usize,
}

/// The lines of a plan, each a number and what it counts.
pub open spec fn plan_lines(p: RestorePlan) -> Seq<Seq<char>> {
    seq![
        decimal(p.app_registrations_to_create as nat) + " app registration(s) to create"@,
        decimal(p.secrets_to_regenerate as nat)
            + " secret(s) to regenerate (new values issued)"@,
        decimal(p.certificates_needing_manual_upload as nat)
            + " certificate(s) need manual re-upload"@,
        decimal(p.federated_credentials_to_restore as nat)
            + " federated credential(s) restored as-is"@,
        decimal(p.owners_to_remap as nat) + " owner(s) to remap by name"@,
    ]
}

fn counted(n: usize, what: &str) -> (r: String)
    ensures
        r@ == decimal(n as nat) + what@,
{
    let mut s = count(n);
    s.append(what);
    s
}

impl RestorePlan {
    /// The lines of the plan.
    pub fn lines(&self) -> (r: Vec<String>)
        ensures
            texts(r@) == plan_lines(*self),
            r@.len() == 5,
            r@[0]@ == decimal(self.app_registrations_to_create as nat)
                + " app registration(s) to create"@,
            r@[1]@ == decimal(self.secrets_to_regenerate as nat)
                + " secret(s) to regenerate (new values issued)"@,
            r@[2]@ == decimal(self.certificates_needing_manual_upload as nat)
                + " certificate(s) need manual re-upload"@,
            r@[3]@ == decimal(self.federated_credentials_to_restore as nat)
                + " federated credential(s) restored as-is"@,
            r@[4]@ == decimal(self.owners_to_remap as nat) + " owner(s) to remap by name"@,
    {
        let r = vec![
            counted(self.app_registrations_to_create, " app registration(s) to create"),
            counted(self.secrets_to_regenerate, " secret(s) to regenerate (new values issued)"),
            counted(
                self.certificates_needing_manual_upload,
                " certificate(s) need manual re-upload",
            ),
            counted(
                self.federated_credentials_to_restore,
                " federated credential(s) restored as-is",
            ),
            counted(self.owners_to_remap, " owner(s) to remap by name"),
        ];
        proof {
            assert(texts(r@) =~= plan_lines(*self));
        }
        r
    }

    /// Why the restore is blocked, where it is.
    pub fn cloud_line(&self) -> (r: Option<String>)
        ensures
            r is Some <==> self.cloud_mismatch is Some,
            self.cloud_mismatch matches Some(m) ==> is_text(
                r,
                "This backup is from the \""@ + m.backup_cloud@
                    + "\" cloud, but this app targets \""@ + m.destination_cloud@
                    + "\". Restore is blocked — use a build configured for the backup's cloud."@,
            ),
    {
        match &self.cloud_mismatch {
            None => None,
            Some(m) => {
                let mut s = cat3(
                    "This backup is from the \"",
                    m.backup_cloud.as_str(),
                    "\" cloud, but this app targets \"",
                );
                s.append(m.destination_cloud.as_str());
                s.append(
                    "\". Restore is blocked — use a build configured for the backup's cloud.",
                );
                Some(s)
            },
        }
    }

    /// The note on another tenant, where the manifest comes from one.
    pub fn tenant_line(&self) -> (r: Option<String>)
        ensures
            r is Some <==> self.tenant_changed,
            r matches Some(t) ==> t@ == "Backup is from tenant "@ + self.source_tenant_id@
                + " — restoring into a different tenant ("@ + self.destination_tenant_id@
                + "). IDs will be reassigned and references remapped by name."@,
    {
        if !self.tenant_changed {
            return None;
        }
        let mut s = cat3(
            "Backup is from tenant ",
            self.source_tenant_id.as_str(),
            " — restoring into a different tenant (",
        );
        s.append(self.destination_tenant_id.as_str());
        s.append("). IDs will be reassigned and references remapped by name.");
        Some(s)
    }
}

/// What has been restored, counted.
#[derive(Clone, Copy, Debug, PartialEq, Eq, Structural)]
pub struct RestoreSummary {
    pub apps: usize,
    pub secrets: usize,
    pub cancelled: bool,
}

impl RestoreSummary {
    /// The summary of a report: `app_secrets` is the number of new secrets of each
    /// app. Nothing where their sum cannot be held.
    pub fn new(app_secrets: &Vec<usize>, cancelled: bool) -> (r: Option<RestoreSummary>)
        ensures
            r is Some <==> sum(app_secrets@) <= usize::MAX,
            r matches Some(n) ==> n.apps == app_secrets@.len() && n.secrets == sum(app_secrets@)
                && n.cancelled == cancelled,
    {
        match total(app_secrets) {
            None => None,
            Some(secrets) => Some(RestoreSummary { apps: app_secrets.len(), secrets, cancelled }),
        }
    }

    /// What is said of a finished restore.
    pub fn restored_line(&self) -> (r: String)
        ensures
            r@ == "Restored "@ + decimal(self.apps as nat) + " app(s); "@ + decimal(
                self.secrets as nat,
            )
                + " secret(s) regenerated. Save the report — the secret values are shown only once."@,
    {
        let mut s = cat3("Restored ", count(self.apps).as_str(), " app(s); ");
        s.append(count(self.secrets).as_str());
        s.append(
            " secret(s) regenerated. Save the report — the secret values are shown only once.",
        );
        s
    }

    /// The head of the report.
    pub fn summary_line(&self) -> (r: String)
        ensures
            r@ == "Restored "@ + decimal(self.apps as nat) + " app(s)"@ + (if self.cancelled {
                " (cancelled before completing — partial)"@
            } else {
                ""@
            }) + ". "@ + decimal(self.secrets as nat) + " secret(s) regenerated."@,
    {
        let mut s = cat3("Restored ", count(self.apps).as_str(), " app(s)");
        s.append(
            if self.cancelled {
                " (cancelled before completing — partial)"
            } else {
                ""
            },
        );
        s.append(". ");
        s.append(count(self.secrets).as_str());
        s.append(" secret(s) regenerated.");
        s
    }

    /// Whether the report warns that its secrets are shown once.
    pub fn has_secrets(&self) -> (r: bool)
        ensures
            r == (self.secrets > 0),
    {
        self.secrets > 0
    }
}

/// A note that lists names; none where there are none.
pub fn names_note(label: &str, names: &Vec<String>) -> (r: Option<String>)
    ensures
        r is None <==> names@.len() == 0,
        r matches Some(t) ==> t@ == label@ + joined(texts(names@), ", "@),
{
    if names.len() == 0 {
        return None;
    }
    let mut s = label.to_owned();
    s.append(join(names, ", ").as_str());
    Some(s)
}

/// The line of an enterprise application in the report.
pub fn enterprise_line(assignments: usize, memberships: usize) -> (r: String)
    ensures
        r@ == decimal(assignments as nat) + " assignment(s), "@ + decimal(memberships as nat)
            + " group membership(s)"@,
{
    let mut s = counted(assignments, " assignment(s), ");
    s.append(count(memberships).as_str());
    s.append(" group membership(s)");
    s
}

/// The line of a managed identity in the report.
pub fn identity_line(roles: usize) -> (r: String)
    ensures
        r@ == decimal(roles as nat) + " Graph app-role(s) re-bound"@,
{
    counted(roles, " Graph app-role(s) re-bound")
}

/// The line of an app that could not be created.
pub fn failure_line(display_name: &str, message: &str) -> (r: String)
    ensures
        r@ == display_name@ + ": "@ + message@,
{
    cat3(display_name, ": ", message)
}

/// What is said of a file that was to be saved; nothing where the dialog was
/// left.
pub open spec fn save_told(
    outcome: Result<Option<String>, UiError>,
    saved: Seq<char>,
    failed: Seq<char>,
    r: Option<Toast>,
) -> bool {
    match outcome {
        Ok(Some(path)) => r matches Some(t) && t.reports(saved + path@),
        Ok(None) => r is None,
        Err(e) => r matches Some(Toast::Failure(t)) && t@ == failed + e.message@,
    }
}

fn save_toast(outcome: Result<Option<String>, UiError>, saved: &str, failed: &str) -> (r: Option<
    Toast,
>)
    ensures
        save_told(outcome, saved@, failed@, r),
{
    match outcome {
        Ok(Some(path)) => {
            let mut s = saved.to_owned();
            s.append(path.as_str());
            Some(Toast::Success(s))
        },
        Ok(None) => None,
        Err(e) => {
            let mut s = failed.to_owned();
            s.append(e.message.as_str());
            Some(Toast::Failure(s))
        },
    }
}

/// What is said of a manifest that was to be saved.
pub fn backup_saved(outcome: Result<Option<String>, UiError>) -> (r: Option<Toast>)
    ensures
        save_told(outcome, "Backup saved to "@, "Couldn't save backup: "@, r),
        outcome matches Ok(Some(path)) ==> r matches Some(Toast::Success(t)) && t@
            == "Backup saved to "@ + path@,
        outcome matches Ok(None) ==> r is None,
        outcome matches Err(e) ==> r matches Some(Toast::Failure(t)) && t@
            == "Couldn't save backup: "@ + e.message@,
{
    save_toast(outcome, "Backup saved to ", "Couldn't save backup: ")
}

/// What is said of a report that was to be saved.
pub fn report_saved(outcome: Result<Option<String>, UiError>) -> (r: Option<Toast>)
    ensures
        save_told(outcome, "Report saved to "@, "Couldn't save report: "@, r),
        outcome matches Ok(Some(path)) ==> r matches Some(Toast::Success(t)) && t@
            == "Report saved to "@ + path@,
        outcome matches Ok(None) ==> r is None,
        outcome matches Err(e) ==> r matches Some(Toast::Failure(t)) && t@
            == "Couldn't save report: "@ + e.message@,
{
    save_toast(outcome, "Report saved to ", "Couldn't save report: ")
}

/// The view. `B` is a manifest, `R` a report.
#[derive(Debug)]
pub struct DisasterRecoveryView<B, R> {
    pub captured: Option<B>,
    pub busy: bool,
    pub error: Option<String>,
    pub progress: Option<RunProgress>,
    pub loaded: Option<B>,
    pub plan: Option<RestorePlan>,
    pub confirm_open: bool,
    pub restoring: bool,
    pub restore_error: Option<String>,
    pub report: Option<R>,
    pub restore_progress: Option<RunProgress>,
}

/// The backup was cancelled by the user: that is no failure.
pub open spec fn was_cancelled(e: UiError) -> bool {
    e.code@ == "cancelled"@
}

impl<B, R> DisasterRecoveryView<B, R> {
    /// What holds at all times: a plan and the manifest it was made for come
    /// together, and the question is asked only of a plan.
    pub open spec fn well_formed(self) -> bool {
        &&& self.plan is Some <==> self.loaded is Some
        &&& self.confirm_open ==> self.plan is Some
    }

    /// Nothing captured, nothing loaded.
    pub fn new() -> (r: DisasterRecoveryView<B, R>)
        ensures
            r.well_formed(),
            r.captured is None,
            !r.busy,
            r.error is None,
            r.progress is None,
            r.loaded is None,
            !r.confirm_open,
            !r.restoring,
            r.restore_error is None,
            r.report is None,
            r.restore_progress is None,
    {
        DisasterRecoveryView {
            captured: None,
            busy: false,
            error: None,
            progress: None,
            loaded: None,
            plan: None,
            confirm_open: false,
            restoring: false,
            restore_error: None,
            report: None,
            restore_progress: None,
        }
    }

    /// "Back up this tenant". Returns whether to start; a start throws the last
    /// manifest away.
    pub fn run_backup(&mut self, tenant: &Option<String>) -> (r: bool)
        ensures
            r == (!old(self).busy && tenant is Some),
            r ==> *final(self) == (DisasterRecoveryView {
                busy: true,
                error: None,
                captured: None,
                progress: None,
                ..*old(self)
            }),
            !r ==> *final(self) == *old(self),
    {
        if self.busy || tenant.is_none() {
            return false;
        }
        self.busy = true;
        self.error = None;
        self.captured = None;
        self.progress = None;
        true
    }

    /// The backup has ended. Returns what to say: of a failure nothing, it stays
    /// in the view.
    pub fn backup_finished(&mut self, outcome: Result<(B, BackupSummary), UiError>) -> (r: Option<
        Toast,
    >)
        ensures
            outcome matches Ok((b, n)) ==> *final(self) == (DisasterRecoveryView {
                busy: false,
                progress: None,
                captured: Some(b),
                ..*old(self)
            }) && r is Some && r->0.reports(
                "Backed up "@ + holdings(n) + "Save it to a file to keep it."@,
            ),
            outcome matches Err(e) ==> if was_cancelled(e) {
                *final(self) == (DisasterRecoveryView {
                    busy: false,
                    progress: None,
                    ..*old(self)
                }) && r is Some && r->0.reports("Backup cancelled."@)
            } else {
                *final(self) == (DisasterRecoveryView {
                    busy: false,
                    progress: None,
                    error: Some(e.message),
                    ..*old(self)
                }) && r is None
            },
            outcome matches Ok((b, n)) ==> r matches Some(Toast::Success(t)) && t@ == "Backed up "@
                + (decimal(n.app_registrations as nat)
                + " app registration(s), "@ + decimal(n.enterprise_apps as nat)
                + " enterprise app(s), "@ + decimal(n.managed_identities as nat)
                + " managed identity(ies). "@) + "Save it to a file to keep it."@,
            outcome matches Err(e) ==> (r is Some <==> e.code@ == "cancelled"@),
            outcome matches Err(e) ==> final(self).error == if e.code@ == "cancelled"@ {
                old(self).error
            } else {
                Some(e.message)
            },
    {
        self.busy = false;
        self.progress = None;
        match outcome {
            Ok((b, n)) => {
                self.captured = Some(b);
                Some(Toast::Success(n.captured_line()))
            },
            Err(e) => {
                if same(e.code.as_str(), "cancelled") {
                    Some(Toast::Success("Backup cancelled.".to_owned()))
                } else {
                    self.error = Some(e.message);
                    None
                }
            },
        }
    }

    /// "Load backup file". Returns whether to ask for a file.
    pub fn load_file(&mut self, tenant: &Option<String>) -> (r: bool)
        ensures
            r == tenant is Some,
            r ==> *final(self) == (DisasterRecoveryView {
                restore_error: None,
                report: None,
                ..*old(self)
            }),
            !r ==> *final(self) == *old(self),
    {
        if tenant.is_none() {
            return false;
        }
        self.restore_error = None;
        self.report = None;
        true
    }

    /// A manifest has been loaded and its restore planned; or the dialog was
    /// left; or either failed, and what was loaded before stays.
    pub fn file_loaded(&mut self, outcome: Result<Option<(B, RestorePlan)>, UiError>)
        requires
            old(self).well_formed(),
        ensures
            final(self).well_formed(),
            *final(self) == match outcome {
                Ok(Some((b, p))) => DisasterRecoveryView {
                    plan: Some(p),
                    loaded: Some(b),
                    ..*old(self)
                },
                Ok(None) => *old(self),
                Err(e) => DisasterRecoveryView { restore_error: Some(e.message), ..*old(self) },
            },
    {
        match outcome {
            Ok(Some((b, p))) => {
                self.plan = Some(p);
                self.loaded = Some(b);
            },
            Ok(None) => {},
            Err(e) => {
                self.restore_error = Some(e.message);
            },
        }
    }

    /// A restore can be asked for: there is a plan, the clouds agree, and none is
    /// under way.
    pub open spec fn restorable(self) -> bool {
        &&& self.plan matches Some(p) && p.cloud_mismatch is None
        &&& !self.restoring
    }

    /// Whether a restore can be asked for.
    pub fn can_restore(&self) -> (r: bool)
        ensures
            r == self.restorable(),
            r <==> self.plan is Some && self.plan->0.cloud_mismatch is None && !self.restoring,
    {
        match &self.plan {
            Some(p) => p.cloud_mismatch.is_none() && !self.restoring,
            None => false,
        }
    }

    /// "Restore into this tenant…": the question, where a restore can be asked
    /// for.
    pub fn ask_restore(&mut self)
        requires
            old(self).well_formed(),
        ensures
            final(self).well_formed(),
            *final(self) == (DisasterRecoveryView {
                confirm_open: old(self).confirm_open || old(self).restorable(),
                ..*old(self)
            }),
            final(self).confirm_open <==> old(self).confirm_open || (old(self).plan is Some && old(
                self).plan->0.cloud_mismatch is None && !old(self).restoring),
    {
        if self.can_restore() {
            self.confirm_open = true;
        }
    }

    /// "Restore" is confirmed. Returns whether to start.
    pub fn do_restore(&mut self, tenant: &Option<String>) -> (r: bool)
        requires
            old(self).well_formed(),
        ensures
            final(self).well_formed(),
            r == (old(self).confirm_open && tenant is Some),
            r ==> old(self).loaded is Some && *final(self) == (DisasterRecoveryView {
                confirm_open: false,
                restoring: true,
                restore_error: None,
                report: None,
                restore_progress: None,
                ..*old(self)
            }),
            !r ==> *final(self) == *old(self),
    {
        if !self.confirm_open || tenant.is_none() {
            return false;
        }
        self.confirm_open = false;
        self.restoring = true;
        self.restore_error = None;
        self.report = None;
        self.restore_progress = None;
        true
    }

    /// The restore has ended. Returns what to say on success.
    pub fn restore_finished(&mut self, outcome: Result<(R, RestoreSummary), UiError>) -> (r: Option<
        String,
    >)
        ensures
            r is Some <==> outcome is Ok,
            outcome matches Ok((report, n)) ==> is_text(
                r,
                "Restored "@ + decimal(n.apps as nat) + " app(s); "@ + decimal(n.secrets as nat)
                    + " secret(s) regenerated. Save the report — the secret values are shown only once."@,
            ) && *final(self) == (DisasterRecoveryView {
                restoring: false,
                restore_progress: None,
                report: Some(report),
                ..*old(self)
            }),
            outcome matches Err(e) ==> *final(self) == (DisasterRecoveryView {
                restoring: false,
                restore_progress: None,
                restore_error: Some(e.message),
                ..*old(self)
            }),
    {
        self.restoring = false;
        self.restore_progress = None;
        match outcome {
            Ok((report, n)) => {
                self.report = Some(report);
                Some(n.restored_line())
            },
            Err(e) => {
                self.restore_error = Some(e.message);
                None
            },
        }
    }

    /// Whether the plan shows: until there is a report.
    pub fn shows_plan(&self) -> (r: bool)
        ensures
            r == (self.plan is Some && self.report is None),
    {
        self.plan.is_some() && self.report.is_none()
    }
}

/// A manifest from another cloud cannot be restored: the question is not asked.
pub proof fn another_cloud_blocks_the_restore<B, R>(v: DisasterRecoveryView<B, R>, p: RestorePlan)
    requires
        v.plan == Some(p),
        p.cloud_mismatch is Some,
    ensures
        !v.restorable(),
{
}

/// A sum adds number by number: one number is its own sum, and the sums of two lists
/// add up.
pub proof fn a_sum_adds_number_by_number(n: usize, a: Seq<usize>, b: Seq<usize>)
    ensures
        sum(Seq::empty()) == 0,
        sum(seq![n]) == n,
        sum(a + b) == sum(a) + sum(b),
    decreases b.len(),
{
    reveal_with_fuel(sum, 2);
    assert(seq![n].drop_last() =~= Seq::<usize>::empty());
    if b.len() == 0 {
        assert(a + b =~= a);
    } else {
        a_sum_adds_number_by_number(n, a, b.drop_last());
        assert((a + b).drop_last() =~= a + b.drop_last());
        assert((a + b).last() == b.last());
    }
}

} // verus!
