use repo_analyzer::api::{handle_analyze, handle_status, health_check, AnalysisRequest, Reply};
use repo_analyzer::jobs::{JobError, JobEvent, JobStatus, JobTracker};
use repo_analyzer::routing::{job_id_param, request_path, route, Route};
use repo_analyzer::{fetch, RepoAnalyzerApi};

fn analyze(repo: &str) -> Option<AnalysisRequest> {
    Some(AnalysisRequest { repo_url: repo.to_string(), branch: None })
}

fn is_uuid_like(s: &str) -> bool {
    let chars: Vec<char> = s.chars().collect();
    chars.len() == 36
        && chars.iter().enumerate().all(|(i, c)| match i {
            8 | 13 | 18 | 23 => *c == '-',
            _ => c.is_ascii_digit() || ('a'..='f').contains(c),
        })
}

fn queued_id(reply: &Reply) -> String {
    match reply {
        Reply::Queued(j) => j.job_id.clone(),
        other => panic!("unexpected reply {:?}", other),
    }
}

#[test]
fn analyze_rejects_empty_repo_url() {
    let mut t = JobTracker::new();
    let r = handle_analyze(&mut t, "POST", analyze(""), 1_700_000_000);
    assert_eq!(r.status, 400);
    assert!(matches!(r.body, Reply::Failure { ref message } if message == "Repository URL is required"));
}

#[test]
fn analyze_queues_jobs_with_fresh_ids() {
    let mut t = JobTracker::new();
    let a = handle_analyze(&mut t, "POST", analyze("https://example.com/r.git"), 1_700_000_000);
    assert_eq!(a.status, 202);
    let b = handle_analyze(&mut t, "POST", analyze("https://example.com/r.git"), 1_700_000_000);
    assert_eq!(b.status, 202);
    let (ia, ib) = (queued_id(&a.body), queued_id(&b.body));
    assert!(is_uuid_like(&ia) && is_uuid_like(&ib));
    assert_eq!(&ia[14..15], "4");
    assert!(["8", "9", "a", "b"].contains(&&ia[19..20]));
    let r = handle_status(&t, &format!("/api/status?job_id={}", ia));
    assert_eq!(r.status, 200);
    assert_ne!(ia, ib);
    match a.body {
        Reply::Queued(j) => {
            assert_eq!(j.status, "queued");
            assert_eq!(j.message, "Analysis for https://example.com/r.git has been queued");
        }
        _ => unreachable!(),
    }
}

#[test]
fn analyze_needs_post_and_valid_body() {
    let mut t = JobTracker::new();
    let r = handle_analyze(&mut t, "GET", analyze("https://example.com/r.git"), 1_700_000_000);
    assert_eq!(r.status, 405);
    assert!(matches!(r.body, Reply::Failure { ref message } if message == "Method not allowed. Use POST."));
    let r = handle_analyze(&mut t, "POST", None, 1_700_000_000);
    assert_eq!(r.status, 400);
    assert!(matches!(r.body, Reply::Failure { ref message } if message == "Invalid JSON format"));
}

#[test]
fn status_of_unknown_job_is_not_found() {
    let t = JobTracker::new();
    let r = handle_status(&t, "https://x.dev/api/status?job_id=nope");
    assert_eq!(r.status, 404);
    let r = handle_status(&t, "https://x.dev/api/status");
    assert_eq!(r.status, 400);
    let r = handle_status(&t, "https://x.dev/api/status?other=1");
    assert_eq!(r.status, 400);
}

#[test]
fn status_of_known_job() {
    let mut t = JobTracker::new();
    let q = t.enqueue("https://example.com/r.git".to_string(), Some("main".to_string()), "job-1".to_string(), 100).unwrap();
    assert_eq!(q.job_id, "job-1");
    let r = handle_status(&t, "/api/status?job_id=job-1");
    assert_eq!(r.status, 200);
    match r.body {
        Reply::JobStatus(rep) => {
            assert_eq!(rep.status, JobStatus::Queued);
            assert_eq!(rep.progress, None);
            assert_eq!(rep.job_id, "job-1");
        }
        _ => unreachable!(),
    }
}

#[test]
fn submit_on_fresh_tracker_queues_job() {
    let mut t = JobTracker::new();
    let q = t.submit("https://example.com/r.git".to_string(), Some("dev".to_string()), 42).unwrap();
    assert!(is_uuid_like(&q.job_id));
    let rep = t.status(&q.job_id).unwrap();
    assert_eq!(rep.status, JobStatus::Queued);
    assert_eq!(rep.message, "Analysis for https://example.com/r.git has been queued");
}

#[test]
fn duplicate_and_empty_enqueue_are_refused() {
    let mut t = JobTracker::new();
    assert!(t.enqueue("u".to_string(), None, "a".to_string(), 1).is_ok());
    assert_eq!(t.enqueue("u".to_string(), None, "a".to_string(), 2).err(), Some(JobError::DuplicateId));
    assert_eq!(t.enqueue("".to_string(), None, "b".to_string(), 2).err(), Some(JobError::EmptyRepoUrl));
    assert_eq!(JobError::EmptyRepoUrl.status_code(), 400);
}

#[test]
fn lifecycle_moves_forward_only() {
    let mut t = JobTracker::new();
    t.enqueue("u".to_string(), None, "a".to_string(), 1).unwrap();
    let msg = |s: &str| s.to_string();
    assert_eq!(t.apply("a", JobEvent::Progress { percent: 10, message: msg("p") }, 2), Err(JobError::IllegalTransition));
    assert_eq!(t.apply("a", JobEvent::Start { message: msg("started") }, 2), Ok(()));
    assert_eq!(t.apply("a", JobEvent::Progress { percent: 40, message: msg("40") }, 3), Ok(()));
    assert_eq!(t.apply("a", JobEvent::Progress { percent: 30, message: msg("30") }, 4), Err(JobError::IllegalTransition));
    assert_eq!(t.apply("a", JobEvent::Progress { percent: 101, message: msg("x") }, 4), Err(JobError::IllegalTransition));
    let rep = t.status("a").unwrap();
    assert_eq!(rep.status, JobStatus::InProgress);
    assert_eq!(rep.progress, Some(40));
    assert_eq!(rep.message, "40");
    assert_eq!(t.apply("a", JobEvent::Complete { message: msg("done") }, 5), Ok(()));
    let rep = t.status("a").unwrap();
    assert_eq!(rep.status, JobStatus::Completed);
    assert_eq!(rep.progress, Some(100));
    assert_eq!(t.apply("a", JobEvent::Fail { message: msg("late") }, 6), Err(JobError::IllegalTransition));
    assert_eq!(t.apply("zzz", JobEvent::Start { message: msg("s") }, 6), Err(JobError::UnknownJob));
    assert_eq!(rep.status.name(), "completed");
}

#[test]
fn failed_jobs_stay_failed() {
    let mut t = JobTracker::new();
    t.enqueue("u".to_string(), None, "a".to_string(), 1).unwrap();
    t.apply("a", JobEvent::Start { message: "s".to_string() }, 2).unwrap();
    t.apply("a", JobEvent::Fail { message: "clone failed".to_string() }, 3).unwrap();
    assert_eq!(t.apply("a", JobEvent::Start { message: "s".to_string() }, 4), Err(JobError::IllegalTransition));
    assert_eq!(t.status("a").unwrap().status, JobStatus::Failed);
}

#[test]
fn health_is_always_ok() {
    for _ in 0..3 {
        let r = health_check();
        assert_eq!(r.status, 200);
        assert!(matches!(r.body, Reply::Health { ref status } if status == "ok"));
    }
}

#[test]
fn request_paths() {
    assert_eq!(request_path("https://example.com/api/analyze?x=1"), "/api/analyze");
    assert_eq!(request_path("https://example.com"), "/");
    assert_eq!(request_path("https://example.com/"), "/");
    assert_eq!(request_path("https://example.com/a/b#frag"), "/a/b");
    assert_eq!(request_path("api/status"), "/api/status");
    assert_eq!(request_path("/api/status?job_id=1"), "/api/status");
    assert_eq!(request_path(""), "/");
}

#[test]
fn routes() {
    assert_eq!(route("GET", "/health"), Route::Health);
    assert_eq!(route("POST", "/upload"), Route::Upload);
    assert_eq!(route("GET", "/upload"), Route::MethodNotAllowed);
    assert_eq!(route("POST", "/api/analyze"), Route::Analyze);
    assert_eq!(route("GET", "/api/analyze"), Route::Analyze);
    assert_eq!(route("GET", "/api/status"), Route::Status);
    assert_eq!(route("GET", "/"), Route::NotFound);
    assert_eq!(route("GET", "/nowhere"), Route::NotFound);
}

#[test]
fn job_id_parameters() {
    assert_eq!(job_id_param("https://h/api/status?job_id=abc"), Some("abc".to_string()));
    assert_eq!(job_id_param("/s?a=1&job_id=xyz&b=2"), Some("xyz".to_string()));
    assert_eq!(job_id_param("/s?xjob_id=1"), None);
    assert_eq!(job_id_param("/s?job_id="), Some("".to_string()));
    assert_eq!(job_id_param("/s?job_id=a=b"), Some("a".to_string()));
    assert_eq!(job_id_param("/s"), None);
}

#[test]
fn edge_fetch_dispatches() {
    let mut api = RepoAnalyzerApi::new();
    let now = 1_700_000_000;
    let r = fetch(&mut api, "POST", "https://edge.dev/api/analyze", analyze("https://example.com/r.git"), now);
    assert_eq!(r.status, 202);
    let id = queued_id(&r.body);
    let r = fetch(&mut api, "GET", &format!("https://edge.dev/api/status?job_id={}", id), None, now);
    assert_eq!(r.status, 200);
    let r = fetch(&mut api, "GET", "https://edge.dev/health", None, now);
    assert_eq!(r.status, 200);
    let r = fetch(&mut api, "GET", "https://edge.dev/", None, now);
    assert_eq!(r.status, 404);
    assert!(matches!(r.body, Reply::Error { ref error } if error == "Not found"));
    let r = fetch(&mut api, "GET", "https://edge.dev/nowhere", None, now);
    assert_eq!(r.status, 404);
    let r = fetch(&mut api, "GET", "https://edge.dev/api/analyze", None, now);
    assert_eq!(r.status, 405);
    assert!(matches!(r.body, Reply::Failure { ref message } if message == "Method not allowed. Use POST."));
    let r = fetch(&mut api, "POST", "https://edge.dev/health", None, now);
    assert_eq!(r.status, 405);
}

#[test]
fn unmatched_requests() {
    let r = repo_analyzer::api::unmatched_reply("GET", "/upload");
    assert_eq!(r.status, 405);
    let r = repo_analyzer::api::unmatched_reply("GET", "/missing");
    assert_eq!(r.status, 404);
    assert!(matches!(r.body, Reply::Error { ref error } if error == "Not found"));
}
