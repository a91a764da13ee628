//! Upload, authentication and job-tracking core of the repository analyzer
//! service. Every decision that the HTTP front ends make is taken here, on
//! plain values, with its behaviour stated in the function contracts.
use vstd::prelude::*;

pub mod text;
pub mod auth;
pub mod store;
pub mod clock;
pub mod keys;
pub mod upload;
pub mod jobs;
pub mod routing;
pub mod api;

use crate::api::{
    AnalysisRequest, Reply, Response, analyze_reply_of, error_reply, handle_analyze, handle_status, health_check,
    is_error, is_health_reply, status_reply_of,
};
use crate::jobs::JobTracker;
use crate::routing::{Route, job_id_of, request_path, route, route_of, route_path};

verus! {

/// The edge deployment of the service: analysis requests and their jobs.
pub struct RepoAnalyzerApi {
    pub tracker: JobTracker,
}

impl RepoAnalyzerApi {
    pub open spec fn wf(&self) -> bool {
        self.tracker.wf()
    }

    /// A service that has issued no jobs yet.
    pub fn new() -> (r: RepoAnalyzerApi)
        ensures
            r.wf(),
            r.tracker@.len() == 0,
    {
        RepoAnalyzerApi { tracker: JobTracker::new() }
    }
}

/// Handles a request to the edge deployment, which serves health, analysis
/// and status but stores no uploads; `now` is the time of the request, in
/// seconds since the Unix epoch.
pub fn fetch(
    api: &mut RepoAnalyzerApi,
    method: &str,
    url: &str,
    request: Option<AnalysisRequest>,
    now: i64,
) -> (r: Response)
    requires
        old(api).wf(),
    ensures
        final(api).wf(),
        exists|path: Seq<char>| {
            &&& #[trigger] route_path(url@, path)
            &&& match route_of(method@, path) {
                Route::Health => is_health_reply(r),
                Route::MethodNotAllowed => is_error(r, 405, "Method not allowed"@),
                Route::Status => exists|id: Option<Seq<char>>| job_id_of(url@, id) && status_reply_of(final(api).tracker@, id, r),
                Route::Analyze => analyze_reply_of(old(api).tracker@, final(api).tracker@, method@, request, now, r),
                _ => is_error(r, 404, "Not found"@),
            }
            &&& (route_of(method@, path) != Route::Analyze ==> final(api).tracker@ == old(api).tracker@)
        },
{
    let path = request_path(url);
    let r = match route(method, path.as_str()) {
        Route::Health => health_check(),
        Route::MethodNotAllowed => error_reply(405, "Method not allowed"),
        Route::Status => handle_status(&api.tracker, url),
        Route::Analyze => handle_analyze(&mut api.tracker, method, request, now),
        _ => error_reply(404, "Not found"),
    };
    assert(route_path(url@, path@));
    r
}

} // verus!
