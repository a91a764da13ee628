//! The JSON replies of the service, as values, and the handlers that decide
//! them. Turning a reply into bytes is left to the server adapters.
use vstd::prelude::*;
use crate::jobs::{AnalysisJob, JobError, JobStatus, JobReport, JobTracker, QueuedJob, queued_message, has_id, reports};
use crate::keys::is_v4_uuid_text;
use crate::routing::{Route, job_id_param, job_id_of, route, route_of};
use crate::upload::{UploadError, UploadResult};
use crate::text::{opt_view, str_eq};

verus! {

/// The body of a reply.
#[derive(Debug)]
pub enum Reply {
    /// `{status}`
    Health { status: String },
    /// `{url, bucket, key, region}`
    Uploaded(UploadResult),
    /// `{status, job_id, message}`
    Queued(QueuedJob),
    /// `{status, job_id, progress, message}`
    JobStatus(JobReport),
    /// `{error}`
    Error { error: String },
    /// `{status: "error", message}`
    Failure { message: String },
}

/// A reply with its HTTP status code; the content type is always JSON.
#[derive(Debug)]
pub struct Response {
    pub status: u16,
    pub body: Reply,
}

/// A decoded analysis request.
#[derive(Debug)]
pub struct AnalysisRequest {
    pub repo_url: String,
    pub branch: Option<String>,
}

/// `r` is the health reply: `200` with `{status: "ok"}`.
pub open spec fn is_health_reply(r: Response) -> bool {
    r.status == 200 && (r.body matches Reply::Health { status } && status@ == "ok"@)
}

/// `r` is the `{status: "error", message}` reply with code `code`.
pub open spec fn is_failure(r: Response, code: u16, message: Seq<char>) -> bool {
    r.status == code && (r.body matches Reply::Failure { message: m } && m@ == message)
}

/// `r` is the `{error}` reply with code `code`.
pub open spec fn is_error(r: Response, code: u16, message: Seq<char>) -> bool {
    r.status == code && (r.body matches Reply::Error { error } && error@ == message)
}

/// The liveness reply.
pub fn health_check() -> (r: Response)
    ensures
        is_health_reply(r),
{
    Response { status: 200, body: Reply::Health { status: String::from_str("ok") } }
}

/// Every health reply is the same `200 {status: "ok"}`, however often it is
/// asked for.
pub proof fn lemma_health_idempotent(a: Response, b: Response)
    requires
        is_health_reply(a),
        is_health_reply(b),
    ensures
        a.status == b.status,
        a.body matches Reply::Health { status: sa } && b.body matches Reply::Health { status: sb }
            && sa@ == sb@,
{
}

/// A `{status: "error", message}` reply.
pub fn failure(code: u16, message: &str) -> (r: Response)
    ensures
        is_failure(r, code, message@),
{
    Response { status: code, body: Reply::Failure { message: String::from_str(message) } }
}

/// An `{error}` reply.
pub fn error_reply(code: u16, message: &str) -> (r: Response)
    ensures
        is_error(r, code, message@),
{
    Response { status: code, body: Reply::Error { error: String::from_str(message) } }
}

/// The reply to a finished upload attempt.
pub fn upload_reply(outcome: Result<UploadResult, UploadError>) -> (r: Response)
    ensures
        outcome is Ok ==> r.status == 200 && (r.body matches Reply::Uploaded(u) && u == outcome->Ok_0),
        outcome matches Err(e) ==> r.status == e.status_code() && is_error(r, r.status, e.spec_message()),
{
    match outcome {
        Ok(u) => Response { status: 200, body: Reply::Uploaded(u) },
        Err(e) => {
            let code = e.status_code();
            let message = e.message();
            Response { status: code, body: Reply::Error { error: message } }
        },
    }
}

/// `r` answers an analysis request with method `method` and decoded body
/// `request`, made at time `now`, the tracker holding `before` jobs before the call and `after` after it.
pub open spec fn analyze_reply_of(
    before: Seq<AnalysisJob>,
    after: Seq<AnalysisJob>,
    method: Seq<char>,
    request: Option<AnalysisRequest>,
    now: i64,
    r: Response,
) -> bool {
    &&& method != "POST"@ ==> is_failure(r, 405, "Method not allowed. Use POST."@)
    &&& method == "POST"@ && request is None ==> is_failure(r, 400, "Invalid JSON format"@)
    &&& method == "POST"@ && (request matches Some(q) && q.repo_url@.len() == 0) ==> is_failure(
        r,
        400,
        "Repository URL is required"@,
    )
    &&& r.status != 202 ==> after == before
    &&& method == "POST"@ && (request matches Some(q) && q.repo_url@.len() > 0) ==> (r.status == 202
        || is_failure(r, 500, "Job id already in use"@))
    &&& is_failure(r, 500, "Job id already in use"@) ==> exists|i: int|
        0 <= i < before.len() && is_v4_uuid_text(#[trigger] before[i].job_id@)
    &&& r.status == 202 ==> (request matches Some(q) && r.body matches Reply::Queued(j) && {
        &&& j.status@ == "queued"@
        &&& is_v4_uuid_text(j.job_id@)
        &&& !has_id(before, j.job_id@)
        &&& has_id(after, j.job_id@)
        &&& j.message@ == queued_message(q.repo_url@)
        &&& after.len() == before.len() + 1
        &&& after.subrange(0, before.len() as int) == before
        &&& after.last().status == JobStatus::Queued
        &&& after.last().progress == 0
        &&& after.last().job_id@ == j.job_id@
        &&& after.last().repo_url == q.repo_url
        &&& after.last().branch == q.branch
        &&& after.last().created_at == now
    })
}

/// Handles `/api/analyze`: `method` is the request's method and `request`
/// its decoded body, `None` when the body is not a valid request; `now` is
/// the time of the request, in seconds since the Unix epoch.
pub fn handle_analyze(
    tracker: &mut JobTracker,
    method: &str,
    request: Option<AnalysisRequest>,
    now: i64,
) -> (r: Response)
    requires
        old(tracker).wf(),
    ensures
        final(tracker).wf(),
        analyze_reply_of(old(tracker)@, final(tracker)@, method@, request, now, r),
{
    if !str_eq(method, "POST") {
        return failure(405, "Method not allowed. Use POST.");
    }
    let q = match request {
        None => {
            return failure(400, "Invalid JSON format");
        },
        Some(q) => q,
    };
    match tracker.submit(q.repo_url, q.branch, now) {
        Ok(j) => Response { status: 202, body: Reply::Queued(j) },
        Err(JobError::EmptyRepoUrl) => failure(400, "Repository URL is required"),
        Err(_) => failure(500, "Job id already in use"),
    }
}

/// `r` answers a status lookup of the job id `id` in `jobs`.
pub open spec fn status_reply_of(jobs: Seq<AnalysisJob>, id: Option<Seq<char>>, r: Response) -> bool {
    match id {
        None => is_failure(r, 400, "Missing job_id parameter"@),
        Some(id) => if has_id(jobs, id) {
            r.status == 200 && (r.body matches Reply::JobStatus(rep) && reports(jobs, id, rep))
        } else {
            is_failure(r, 404, "Job not found"@)
        },
    }
}

/// Answers a status lookup of `id`, `None` when the request named no job.
pub fn status_reply(tracker: &JobTracker, id: Option<String>) -> (r: Response)
    requires
        tracker.wf(),
    ensures
        status_reply_of(tracker@, opt_view(id), r),
{
    match id {
        None => failure(400, "Missing job_id parameter"),
        Some(id) => match tracker.status(id.as_str()) {
            None => failure(404, "Job not found"),
            Some(rep) => Response { status: 200, body: Reply::JobStatus(rep) },
        },
    }
}

/// Handles `/api/status` for the request URL `url`.
pub fn handle_status(tracker: &JobTracker, url: &str) -> (r: Response)
    requires
        tracker.wf(),
    ensures
        exists|id: Option<Seq<char>>| job_id_of(url@, id) && status_reply_of(tracker@, id, r),
{
    let id = job_id_param(url);
    let ghost idv = opt_view(id);
    let r = status_reply(tracker, id);
    assert(job_id_of(url@, idv) && status_reply_of(tracker@, idv, r));
    r
}

/// The reply to a request that no handler of the server took: `405` on a
/// known path asked with the wrong method, else `404`.
pub fn unmatched_reply(method: &str, path: &str) -> (r: Response)
    ensures
        route_of(method@, path@) == Route::MethodNotAllowed ==> is_error(r, 405, "Method not allowed"@),
        route_of(method@, path@) != Route::MethodNotAllowed ==> is_error(r, 404, "Not found"@),
{
    match route(method, path) {
        Route::MethodNotAllowed => error_reply(405, "Method not allowed"),
        _ => error_reply(404, "Not found"),
    }
}

} // verus!
