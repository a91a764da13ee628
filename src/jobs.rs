//! Asynchronous analysis jobs: identity, the forward-only lifecycle
//! `queued -> in_progress -> completed | failed`, and status lookups.
use vstd::prelude::*;
use crate::keys::new_uuid_text;
pub use crate::keys::is_v4_uuid_text;
use crate::text::{concat, str_eq};

verus! {

/// Where a job stands in its lifecycle.
#[derive(Clone, Copy, Debug, PartialEq, Eq, Structural)]
pub enum JobStatus {
    Queued,
    InProgress,
    Completed,
    Failed,
}

/// The position of a status along the lifecycle.
pub open spec fn rank(s: JobStatus) -> nat {
    match s {
        JobStatus::Queued => 0,
        JobStatus::InProgress => 1,
        _ => 2,
    }
}

pub open spec fn status_text(s: JobStatus) -> Seq<char> {
    match s {
        JobStatus::Queued => "queued"@,
        JobStatus::InProgress => "in_progress"@,
        JobStatus::Completed => "completed"@,
        JobStatus::Failed => "failed"@,
    }
}

impl JobStatus {
    /// The wire name of the status.
    pub fn name(&self) -> (r: String)
        ensures
            r@ == status_text(*self),
    {
        match self {
            JobStatus::Queued => String::from_str("queued"),
            JobStatus::InProgress => String::from_str("in_progress"),
            JobStatus::Completed => String::from_str("completed"),
            JobStatus::Failed => String::from_str("failed"),
        }
    }
}

/// One tracked analysis request.
#[derive(Clone, Debug)]
pub struct AnalysisJob {
    pub job_id: String,
    pub repo_url: String,
    pub branch: Option<String>,
    pub status: JobStatus,
    /// Percent done, 0 to 100.
    pub progress: u32,
    pub message: String,
    /// Seconds since the Unix epoch.
    pub created_at: i64,
    pub updated_at: i64,
}

impl AnalysisJob {
    pub open spec fn wf(&self) -> bool {
        &&& self.job_id@.len() > 0
        &&& self.repo_url@.len() > 0
        &&& self.progress <= 100
        &&& self.status == JobStatus::Queued ==> self.progress == 0
        &&& self.status == JobStatus::Completed ==> self.progress == 100
    }
}

/// A report from the analysis worker about one job.
#[derive(Clone, Debug)]
pub enum JobEvent {
    /// The worker picked the job up.
    Start { message: String },
    /// The worker has done `percent` of the job.
    Progress { percent: u32, message: String },
    Complete { message: String },
    Fail { message: String },
}

pub open spec fn event_message(e: JobEvent) -> Seq<char> {
    match e {
        JobEvent::Start { message } => message@,
        JobEvent::Progress { message, .. } => message@,
        JobEvent::Complete { message } => message@,
        JobEvent::Fail { message } => message@,
    }
}

/// The status and progress a job moves to on `e`, if `e` is legal there.
pub open spec fn next_state(status: JobStatus, progress: u32, e: JobEvent) -> Option<(JobStatus, u32)> {
    match (status, e) {
        (JobStatus::Queued, JobEvent::Start { .. }) => Some((JobStatus::InProgress, 0u32)),
        (JobStatus::InProgress, JobEvent::Progress { percent, .. }) => if progress <= percent
            <= 100 {
            Some((JobStatus::InProgress, percent))
        } else {
            None
        },
        (JobStatus::InProgress, JobEvent::Complete { .. }) => Some((JobStatus::Completed, 100u32)),
        (JobStatus::InProgress, JobEvent::Fail { .. }) => Some((JobStatus::Failed, progress)),
        _ => None,
    }
}

/// Why a tracker operation was refused.
#[derive(Clone, Copy, Debug, PartialEq, Eq, Structural)]
pub enum JobError {
    /// The repository URL is empty.
    EmptyRepoUrl,
    /// The job id is already in use.
    DuplicateId,
    UnknownJob,
    /// The event is not legal in the job's current state.
    IllegalTransition,
}

impl JobError {
    /// The HTTP status code that reports this error.
    pub fn status_code(&self) -> (r: u16)
        ensures
            r == match self {
                JobError::EmptyRepoUrl => 400u16,
                JobError::UnknownJob => 404u16,
                JobError::IllegalTransition => 409u16,
                JobError::DuplicateId => 500u16,
            },
    {
        match self {
            JobError::EmptyRepoUrl => 400,
            JobError::UnknownJob => 404,
            JobError::IllegalTransition => 409,
            JobError::DuplicateId => 500,
        }
    }
}

/// The reply to an accepted analysis request.
#[derive(Clone, Debug)]
pub struct QueuedJob {
    pub status: String,
    pub job_id: String,
    pub message: String,
}

/// The reply to a status lookup; `progress` is given only while the job is
/// in progress or completed.
#[derive(Clone, Debug)]
pub struct JobReport {
    pub status: JobStatus,
    pub job_id: String,
    pub progress: Option<u32>,
    pub message: String,
}

/// The message recorded for a newly queued job.
pub open spec fn queued_message(repo_url: Seq<char>) -> Seq<char> {
    "Analysis for "@ + repo_url + " has been queued"@
}

/// Whether some job of `jobs` has the id `id`.
pub open spec fn has_id(jobs: Seq<AnalysisJob>, id: Seq<char>) -> bool {
    exists|i: int| 0 <= i < jobs.len() && (#[trigger] jobs[i]).job_id@ == id
}

/// `rep` reports the job of `jobs` with id `id`.
pub open spec fn reports(jobs: Seq<AnalysisJob>, id: Seq<char>, rep: JobReport) -> bool {
    exists|i: int| {
        &&& 0 <= i < jobs.len()
        &&& #[trigger] jobs[i].job_id@ == id
        &&& rep.status == jobs[i].status
        &&& rep.job_id@ == id
        &&& rep.message@ == jobs[i].message@
        &&& rep.progress == if jobs[i].status == JobStatus::InProgress || jobs[i].status
            == JobStatus::Completed {
            Some(jobs[i].progress)
        } else {
            None
        }
    }
}

/// The table of jobs. Jobs are never removed, so the ids in the table are
/// all the ids the tracker has issued.
pub struct JobTracker {
    jobs: Vec<AnalysisJob>,
}

impl View for JobTracker {
    type V = Seq<AnalysisJob>;

    closed spec fn view(&self) -> Seq<AnalysisJob> {
        self.jobs@
    }
}

impl JobTracker {
    /// Every job is well formed and no two share an id.
    pub open spec fn wf(&self) -> bool {
        &&& forall|i: int| 0 <= i < self@.len() ==> (#[trigger] self@[i]).wf()
        &&& forall|i: int, j: int|
            0 <= i < j < self@.len() ==> (#[trigger] self@[i]).job_id@ != (#[trigger] self@[j]).job_id@
    }

    /// An empty tracker.
    pub fn new() -> (r: JobTracker)
        ensures
            r.wf(),
            r@.len() == 0,
    {
        JobTracker { jobs: Vec::new() }
    }

    /// The position of the job with id `id`.
    pub fn find(&self, id: &str) -> (r: Option<usize>)
        ensures
            r is None <==> !has_id(self@, id@),
            r matches Some(i) ==> i < self@.len() && self@[i as int].job_id@ == id@,
    {
        let mut i: usize = 0;
        while i < self.jobs.len()
            invariant
                i <= self@.len(),
                self@ == self.jobs@,
                forall|j: int| 0 <= j < i ==> (#[trigger] self@[j]).job_id@ != id@,
            decreases self.jobs.len() - i,
        {
            if str_eq(self.jobs[i].job_id.as_str(), id) {
                return Some(i);
            }
            i = i + 1;
        }
        None
    }

    /// Records a new queued job for `repo_url` under `job_id`, created at
    /// `now`.
    pub fn enqueue(&mut self, repo_url: String, branch: Option<String>, job_id: String, now: i64) -> (r:
        Result<QueuedJob, JobError>)
        requires
            old(self).wf(),
            job_id@.len() > 0,
        ensures
            final(self).wf(),
            r matches Err(JobError::EmptyRepoUrl) <==> repo_url@.len() == 0,
            r matches Err(JobError::DuplicateId) <==> repo_url@.len() > 0 && has_id(old(self)@, job_id@),
            r is Err ==> final(self)@ == old(self)@,
            r matches Err(e) ==> e == JobError::EmptyRepoUrl || e == JobError::DuplicateId,
            r matches Ok(q) ==> {
                &&& q.status@ == "queued"@
                &&& q.job_id@ == job_id@
                &&& q.message@ == queued_message(repo_url@)
                &&& final(self)@.len() == old(self)@.len() + 1
                &&& final(self)@.subrange(0, old(self)@.len() as int) == old(self)@
                &&& final(self)@.last() == (AnalysisJob {
                    job_id,
                    repo_url,
                    branch,
                    status: JobStatus::Queued,
                    progress: 0,
                    message: q.message,
                    created_at: now,
                    updated_at: now,
                })
            },
    {
        if repo_url.as_str().unicode_len() == 0 {
            return Err(JobError::EmptyRepoUrl);
        }
        if self.find(job_id.as_str()).is_some() {
            return Err(JobError::DuplicateId);
        }
        let message = concat("Analysis for ", repo_url.as_str());
        let message = concat(message.as_str(), " has been queued");
        let reply = QueuedJob {
            status: String::from_str("queued"),
            job_id: job_id.clone(),
            message: message.clone(),
        };
        let ghost old_jobs = self@;
        self.jobs.push(
            AnalysisJob {
                job_id,
                repo_url,
                branch,
                status: JobStatus::Queued,
                progress: 0,
                message,
                created_at: now,
                updated_at: now,
            },
        );
        assert(self@.subrange(0, old_jobs.len() as int) =~= old_jobs);
        Ok(reply)
    }

    /// The status of the job `id`, or `None` for an id never issued.
    pub fn status(&self, id: &str) -> (r: Option<JobReport>)
        requires
            self.wf(),
        ensures
            r is None <==> !has_id(self@, id@),
            r matches Some(rep) ==> reports(self@, id@, rep),
    {
        match self.find(id) {
            None => None,
            Some(i) => {
                let job = &self.jobs[i];
                let progress = match job.status {
                    JobStatus::InProgress | JobStatus::Completed => Some(job.progress),
                    _ => None,
                };
                Some(
                    JobReport {
                        status: job.status,
                        job_id: job.job_id.clone(),
                        progress,
                        message: job.message.clone(),
                    },
                )
            },
        }
    }

    /// Applies a worker's report on job `id` at time `now`, as one step:
    /// status, progress, message and update time change together or not at
    /// all.
    pub fn apply(&mut self, id: &str, event: JobEvent, now: i64) -> (r: Result<(), JobError>)
        requires
            old(self).wf(),
        ensures
            final(self).wf(),
            r matches Err(JobError::UnknownJob) <==> !has_id(old(self)@, id@),
            r is Err ==> final(self)@ == old(self)@,
            r matches Err(e) ==> e == JobError::UnknownJob || e == JobError::IllegalTransition,
            has_id(old(self)@, id@) ==> exists|i: int| {
                &&& 0 <= i < old(self)@.len()
                &&& #[trigger] old(self)@[i].job_id@ == id@
                &&& (r is Ok <==> next_state(old(self)@[i].status, old(self)@[i].progress, event) is Some)
                &&& r is Ok ==> {
                    let (s, p) = next_state(old(self)@[i].status, old(self)@[i].progress, event)->0;
                    final(self)@ == old(self)@.update(i, AnalysisJob {
                        status: s,
                        progress: p,
                        message: final(self)@[i].message,
                        updated_at: now,
                        ..old(self)@[i]
                    })
                    && final(self)@[i].message@ == event_message(event)
                }
            },
    {
        let i = match self.find(id) {
            None => {
                return Err(JobError::UnknownJob);
            },
            Some(i) => i,
        };
        let status = self.jobs[i].status;
        let progress = self.jobs[i].progress;
        let (next, message) = match event {
            JobEvent::Start { message } => match status {
                JobStatus::Queued => ((JobStatus::InProgress, 0u32), message),
                _ => {
                    return Err(JobError::IllegalTransition);
                },
            },
            JobEvent::Progress { percent, message } => {
                if status == JobStatus::InProgress && progress <= percent && percent <= 100 {
                    ((JobStatus::InProgress, percent), message)
                } else {
                    return Err(JobError::IllegalTransition);
                }
            },
            JobEvent::Complete { message } => match status {
                JobStatus::InProgress => ((JobStatus::Completed, 100u32), message),
                _ => {
                    return Err(JobError::IllegalTransition);
                },
            },
            JobEvent::Fail { message } => match status {
                JobStatus::InProgress => ((JobStatus::Failed, progress), message),
                _ => {
                    return Err(JobError::IllegalTransition);
                },
            },
        };
        let ghost old_jobs = self@;
        let (s, p) = next;
        self.jobs[i].status = s;
        self.jobs[i].progress = p;
        self.jobs[i].message = message;
        self.jobs[i].updated_at = now;
        proof {
            assert forall|a: int, b: int|
                0 <= a < b < self@.len() implies (#[trigger] self@[a]).job_id@ != (
            #[trigger] self@[b]).job_id@ by {
                assert(old_jobs[a].job_id@ != old_jobs[b].job_id@);
            }
            assert(self@ =~= old_jobs.update(i as int, AnalysisJob {
                status: s,
                progress: p,
                message: self@[i as int].message,
                updated_at: now,
                ..old_jobs[i as int]
            }));
        }
        Ok(())
    }

    /// Accepts an analysis request at time `now`: mints a fresh UUID for the
    /// job and records it as queued. The only failure besides an empty URL is
    /// a UUID that the table already holds, which needs a UUID in the table.
    pub fn submit(&mut self, repo_url: String, branch: Option<String>, now: i64) -> (r: Result<QueuedJob, JobError>)
        requires
            old(self).wf(),
        ensures
            final(self).wf(),
            r matches Err(JobError::EmptyRepoUrl) <==> repo_url@.len() == 0,
            r is Err ==> final(self)@ == old(self)@,
            r matches Err(e) ==> e == JobError::EmptyRepoUrl || e == JobError::DuplicateId,
            r matches Err(JobError::DuplicateId) ==> exists|i: int|
                0 <= i < old(self)@.len() && is_v4_uuid_text(#[trigger] old(self)@[i].job_id@),
            r matches Ok(q) ==> {
                &&& q.status@ == "queued"@
                &&& is_v4_uuid_text(q.job_id@)
                &&& !has_id(old(self)@, q.job_id@)
                &&& has_id(final(self)@, q.job_id@)
                &&& q.message@ == queued_message(repo_url@)
                &&& final(self)@.len() == old(self)@.len() + 1
                &&& final(self)@.subrange(0, old(self)@.len() as int) == old(self)@
                &&& final(self)@.last().job_id@ == q.job_id@
                &&& final(self)@.last().repo_url == repo_url
                &&& final(self)@.last().branch == branch
                &&& final(self)@.last().status == JobStatus::Queued
                &&& final(self)@.last().progress == 0
                &&& final(self)@.last().message@ == q.message@
                &&& final(self)@.last().created_at == now
                &&& final(self)@.last().updated_at == now
            },
    {
        if repo_url.as_str().unicode_len() == 0 {
            return Err(JobError::EmptyRepoUrl);
        }
        let id = new_uuid_text();
        let ghost idv = id@;
        let r = self.enqueue(repo_url, branch, id, now);
        proof {
            if r is Ok {
                let k = (final(self)@.len() - 1) as int;
                assert(final(self)@[k].job_id@ == r->Ok_0.job_id@);
            }
            if r matches Err(JobError::DuplicateId) {
                let i = choose|i: int| 0 <= i < old(self)@.len() && (#[trigger] old(self)@[i]).job_id@ == idv;
                assert(is_v4_uuid_text(old(self)@[i].job_id@));
            }
        }
        r
    }
}

/// A job's status never moves backwards, and progress never decreases
/// while it stays in progress.
pub proof fn lemma_forward_only(status: JobStatus, progress: u32, e: JobEvent)
    requires
        next_state(status, progress, e) is Some,
    ensures
        ({
            let (s, p) = next_state(status, progress, e)->0;
            rank(s) > rank(status) || (s == JobStatus::InProgress && status == JobStatus::InProgress
                && p >= progress)
        }),
{
}

/// No event moves a job out of `completed` or `failed`.
pub proof fn lemma_terminal_states(status: JobStatus, progress: u32, e: JobEvent)
    requires
        status == JobStatus::Completed || status == JobStatus::Failed,
    ensures
        next_state(status, progress, e) is None,
{
}

/// A job that completes reports progress 100.
pub proof fn lemma_completed_at_full(status: JobStatus, progress: u32, e: JobEvent)
    requires
        next_state(status, progress, e) matches Some((s, _)) && s == JobStatus::Completed,
    ensures
        next_state(status, progress, e) == Some((JobStatus::Completed, 100u32)),
{
}

} // verus!
