//! The thin tabs: provisioning, activity and conditional access.

use crate::session::{copy_text, is_text, needs_consent, UiError};
use crate::text::{cat3, same};
use vstd::prelude::*;
use vstd::string::*;

verus! {

/// The identity of the service principal that a detail pane shows.
#[derive(Debug)]
pub struct PrincipalIds {
    pub id: String,
    pub app_id: String,
    pub paired_app_registration_id: Option<String>,
}

/// Whose directory entries the activity panel shows.
#[derive(Debug)]
pub struct ActivityScope {
    pub app_id: String,
    pub primary_id: String,
    pub secondary_id: Option<String>,
}

/// The change log covers the service principal and, where there is one, its
/// paired app registration.
#[allow(non_snake_case)]
pub fn ActivityContent(sp: &PrincipalIds) -> (r: ActivityScope)
    ensures
        r.app_id == sp.app_id,
        r.primary_id == sp.id,
        r.secondary_id == sp.paired_app_registration_id,
{
    ActivityScope {
        app_id: sp.app_id.clone(),
        primary_id: sp.id.clone(),
        secondary_id: copy_text(&sp.paired_app_registration_id),
    }
}

/// Conditional access shows the policies that target the application id.
#[allow(non_snake_case)]
pub fn CaContent(sp: &PrincipalIds) -> (r: String)
    ensures
        r == sp.app_id,
{
    sp.app_id.clone()
}

/// A provisioning job.
#[derive(Debug)]
pub struct ProvisioningJob {
    pub id: String,
    pub template_id: Option<String>,
    pub status_code: Option<String>,
    pub last_state: Option<String>,
    pub last_run: Option<String>,
}

/// What the provisioning tab shows.
#[derive(Clone, Copy, Debug, PartialEq, Eq, Structural)]
pub enum ProvisioningContent {
    /// Consent or a licence is missing.
    Unavailable,
    /// The load failed otherwise and can be tried again.
    Failed,
    NotConfigured,
    Jobs,
}

/// An error of authorization: only that means that consent or a licence is
/// missing.
pub open spec fn unauthorized(e: UiError) -> bool {
    e.code@ == "forbidden"@ || needs_consent(e)
}

impl ProvisioningContent {
    /// What the tab shows of the outcome of a load.
    pub fn of(jobs: &Result<Vec<ProvisioningJob>, UiError>) -> (r: ProvisioningContent)
        ensures
            r == match *jobs {
                Err(e) => if unauthorized(e) {
                    ProvisioningContent::Unavailable
                } else {
                    ProvisioningContent::Failed
                },
                Ok(list) => if list@.len() == 0 {
                    ProvisioningContent::NotConfigured
                } else {
                    ProvisioningContent::Jobs
                },
            },
            jobs matches Err(e) ==> (r is Unavailable <==> e.code@ == "forbidden"@ || e.code@
                == "consent_required"@),
    {
        match jobs {
            Err(e) => if same(e.code.as_str(), "forbidden") || same(
                e.code.as_str(),
                "consent_required",
            ) {
                ProvisioningContent::Unavailable
            } else {
                ProvisioningContent::Failed
            },
            Ok(list) => if list.len() == 0 {
                ProvisioningContent::NotConfigured
            } else {
                ProvisioningContent::Jobs
            },
        }
    }
}

/// What a job shows.
#[derive(Debug)]
pub struct JobRow {
    pub title: String,
    pub label: String,
    pub badge: &'static str,
    pub last: String,
}

/// The line of the last run: its state, and when it was where that is known.
pub open spec fn last_run_line(j: ProvisioningJob) -> Seq<char> {
    match (j.last_state, j.last_run) {
        (Some(s), Some(t)) => s@ + " — "@ + t@,
        (Some(s), None) => s@,
        _ => "—"@,
    }
}

/// What a job shows.
pub fn job_row(j: &ProvisioningJob) -> (r: JobRow)
    ensures
        r.title == match j.template_id {
            Some(t) => t,
            None => j.id,
        },
        r.label@ == match j.status_code {
            Some(c) => c@,
            None => "Unknown"@,
        },
        r.badge@ == if is_text(j.status_code, "Active"@) {
            "badge badge--ok"@
        } else if is_text(j.status_code, "Quarantine"@) {
            "badge badge--danger"@
        } else if j.status_code is Some {
            "badge badge--warning"@
        } else {
            "badge"@
        },
        r.last@ == last_run_line(*j),
        j.last_state is None ==> r.last@ == "—"@,
        j.last_state is Some && j.last_run is None ==> r.last@ == j.last_state->0@,
        j.last_state is Some && j.last_run is Some ==> r.last@ == j.last_state->0@ + " — "@
            + j.last_run->0@,
        j.status_code matches Some(c) ==> (c@ == "Active"@ ==> r.badge@ == "badge badge--ok"@),
        j.status_code matches Some(c) ==> (c@ == "Quarantine"@ && c@ != "Active"@ ==> r.badge@
            == "badge badge--danger"@),
{
    let (label, badge) = match &j.status_code {
        Some(c) => if same(c.as_str(), "Active") {
            (c.clone(), "badge badge--ok")
        } else if same(c.as_str(), "Quarantine") {
            (c.clone(), "badge badge--danger")
        } else {
            (c.clone(), "badge badge--warning")
        },
        None => ("Unknown".to_owned(), "badge"),
    };
    let last = match (&j.last_state, &j.last_run) {
        (Some(s), Some(t)) => cat3(s.as_str(), " — ", t.as_str()),
        (Some(s), None) => s.clone(),
        _ => "—".to_owned(),
    };
    let title = match &j.template_id {
        Some(t) => t.clone(),
        None => j.id.clone(),
    };
    JobRow { title, label, badge, last }
}

} // verus!
