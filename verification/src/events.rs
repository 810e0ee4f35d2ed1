//! The progress publisher: derives the typed event stream that a subscribed
//! client sees.
//!
//! Each poll re-reads the active (queued, running or paused) jobs of a
//! project and yields one status event per job; with no active jobs it
//! yields a heartbeat instead, so the connection's liveness is observable on
//! its own.

use vstd::prelude::*;

use crate::store::{JobStore, ProcessingJob, clone_opt_string};
use crate::jobs::JobStatus;

verus! {

/// Typed events of the job progress stream.
#[derive(Debug, Clone, PartialEq, Eq)]
pub enum JobProgressEvent {
    /// A job's latest observed status and progress.
    JobStatusChanged { job_id: u64, status: JobStatus, progress: u32, current_step: Option<String> },
    /// A step began running.
    StepStarted { job_id: u64, step_key: String, step_name: String, step_order: u32 },
    /// A running step reported progress.
    StepProgress {
        job_id: u64,
        step_key: String,
        progress: u32,
        items_processed: u32,
        items_total: u32,
        message: Option<String>,
    },
    /// A step finished.
    StepCompleted { job_id: u64, step_key: String, duration_ms: i64 },
    /// A step failed.
    StepFailed { job_id: u64, step_key: String, error: String, can_retry: bool },
    /// The whole job finished.
    JobCompleted { job_id: u64, duration_ms: i64 },
    /// The whole job failed.
    JobFailed { job_id: u64, error: String, failed_step: Option<String>, can_retry: bool },
    /// The job was paused.
    JobPaused { job_id: u64, current_step: Option<String> },
    /// The job was resumed.
    JobResumed { job_id: u64 },
    /// The job was cancelled.
    JobCancelled { job_id: u64 },
    /// Liveness signal while no job is active.
    Heartbeat { timestamp: i64 },
}

/// The job belongs to the project and is active (queued, running or paused).
pub open spec fn is_active_in(j: ProcessingJob, project_id: u128) -> bool {
    j.project_id == project_id && j.status.spec_is_active()
}

/// Some job of the project is active.
pub open spec fn has_active_job_in(jobs: Seq<ProcessingJob>, project_id: u128) -> bool {
    exists|i: int| 0 <= i < jobs.len() && is_active_in(#[trigger] jobs[i], project_id)
}

/// The status event that one job contributes to a poll.
pub open spec fn status_event(j: ProcessingJob) -> JobProgressEvent {
    JobProgressEvent::JobStatusChanged {
        job_id: j.id,
        status: j.status,
        progress: j.progress,
        current_step: j.current_step,
    }
}

/// One status event per active job of the project, in store order.
pub open spec fn active_events(jobs: Seq<ProcessingJob>, project_id: u128) -> Seq<JobProgressEvent>
    decreases jobs.len(),
{
    if jobs.len() == 0 {
        Seq::empty()
    } else {
        active_events(jobs.drop_last(), project_id) + (if is_active_in(jobs.last(), project_id) {
            seq![status_event(jobs.last())]
        } else {
            Seq::empty()
        })
    }
}

/// A poll yields no status events exactly when the project has no active
/// job; the heartbeat then takes their place.
pub proof fn lemma_no_active_no_events(jobs: Seq<ProcessingJob>, project_id: u128)
    ensures
        active_events(jobs, project_id).len() == 0 <==> !has_active_job_in(jobs, project_id),
    decreases jobs.len(),
{
    if jobs.len() == 0 {
        assert(!has_active_job_in(jobs, project_id));
    } else {
        lemma_no_active_no_events(jobs.drop_last(), project_id);
        if is_active_in(jobs.last(), project_id) {
            assert(has_active_job_in(jobs, project_id));
        } else {
            assert(has_active_job_in(jobs.drop_last(), project_id) <==> has_active_job_in(
                jobs,
                project_id,
            )) by {
                if has_active_job_in(jobs, project_id) {
                    let i = choose|i: int|
                        0 <= i < jobs.len() && is_active_in(#[trigger] jobs[i], project_id);
                    assert(i < jobs.len() - 1);
                    assert(is_active_in(jobs.drop_last()[i], project_id));
                }
                if has_active_job_in(jobs.drop_last(), project_id) {
                    let i = choose|i: int|
                        0 <= i < jobs.drop_last().len() && is_active_in(
                            #[trigger] jobs.drop_last()[i],
                            project_id,
                        );
                    assert(is_active_in(jobs[i], project_id));
                }
            }
        }
    }
}

/// Relies on chrono's `Utc::now` and `DateTime::timestamp_millis`: the
/// current wall-clock time as milliseconds since the Unix epoch. Nothing is
/// assumed of the value; callers hold for every outcome.
#[verifier::external_body]
fn now_millis() -> i64 {
    chrono::Utc::now().timestamp_millis()
}

/// The label under which an event is sent on the stream.
pub fn event_label(e: &JobProgressEvent) -> (r: &'static str)
    ensures
        r@ == if *e is Heartbeat {
            "heartbeat"@
        } else {
            "job_update"@
        },
{
    match e {
        JobProgressEvent::Heartbeat { .. } => "heartbeat",
        _ => "job_update",
    }
}

impl JobStore {
    /// One poll of the publisher at a given time: one status event per
    /// active job of the project, or a single heartbeat when none is active.
    pub fn poll_events_at(&self, project_id: u128, now_ms: i64) -> (r: Vec<JobProgressEvent>)
        ensures
            active_events(self@, project_id).len() == 0 ==> r@ =~= seq![
                JobProgressEvent::Heartbeat { timestamp: now_ms },
            ],
            active_events(self@, project_id).len() > 0 ==> r@ == active_events(self@, project_id),
    {
        let mut r: Vec<JobProgressEvent> = Vec::new();
        let mut i: usize = 0;
        while i < self.jobs.len()
            invariant
                i <= self@.len(),
                r@ == active_events(self@.subrange(0, i as int), project_id),
            decreases self@.len() - i,
        {
            proof {
                assert(self@.subrange(0, i + 1).drop_last() =~= self@.subrange(0, i as int));
                assert(self@.subrange(0, i + 1).last() == self@[i as int]);
            }
            let j = &self.jobs[i];
            if j.project_id == project_id && j.status.is_active() {
                r.push(JobProgressEvent::JobStatusChanged {
                    job_id: j.id,
                    status: j.status,
                    progress: j.progress,
                    current_step: clone_opt_string(&j.current_step),
                });
                proof {
                    assert(r@ =~= active_events(self@.subrange(0, i + 1), project_id));
                }
            }
            i = i + 1;
        }
        proof {
            assert(self@.subrange(0, self@.len() as int) =~= self@);
        }
        if r.len() == 0 {
            r.push(JobProgressEvent::Heartbeat { timestamp: now_ms });
        }
        r
    }

    /// One poll of the publisher at the current wall-clock time.
    pub fn poll_events(&self, project_id: u128) -> (r: Vec<JobProgressEvent>)
        ensures
            active_events(self@, project_id).len() == 0 ==> r@.len() == 1 && r@[0] is Heartbeat,
            active_events(self@, project_id).len() > 0 ==> r@ == active_events(self@, project_id),
    {
        let now_ms = now_millis();
        self.poll_events_at(project_id, now_ms)
    }
}

} // verus!
