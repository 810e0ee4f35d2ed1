//! The job control state machine: the only path by which a caller alters a
//! job's lifecycle after creation.
//!
//! Every action is validated against the guard table before anything is
//! applied; a violated guard leaves the store untouched and names the current
//! and requested states. The store mutations of the table's effect column
//! are the public primitives below, each with an exact contract.

use vstd::prelude::*;

use crate::PROGRESS_SCALE;
use crate::jobs::{JobControlAction, JobStatus, StepStatus};
use crate::store::{
    JobError, JobStore, ProcessingJob, ProcessingStep, done_count, has_job, has_job_in, has_step,
    job_idx, job_with, lemma_job_ids_unique, lemma_job_idx_is, lemma_progress_bounds,
    spec_job_progress, step_idx, wf_job, wf_step, wf_store,
};

verus! {

/// The status a control action asks the job to enter.
pub open spec fn requested_status(action: JobControlAction) -> JobStatus {
    match action {
        JobControlAction::Pause => JobStatus::Paused,
        JobControlAction::Resume => JobStatus::Running,
        JobControlAction::Cancel => JobStatus::Cancelled,
        JobControlAction::RetryStep { .. } => JobStatus::Running,
        JobControlAction::RetryJob => JobStatus::Running,
    }
}

/// The guard table: which statuses admit which actions.
///
/// | action     | precondition                        |
/// |------------|-------------------------------------|
/// | Pause      | running                             |
/// | Resume     | paused                              |
/// | Cancel     | not completed and not cancelled     |
/// | RetryStep  | failed or paused                    |
/// | RetryJob   | failed                              |
pub open spec fn guard_holds(status: JobStatus, action: JobControlAction) -> bool {
    match action {
        JobControlAction::Pause => status == JobStatus::Running,
        JobControlAction::Resume => status == JobStatus::Paused,
        JobControlAction::Cancel => status != JobStatus::Completed && status
            != JobStatus::Cancelled,
        JobControlAction::RetryStep { .. } => status == JobStatus::Failed || status
            == JobStatus::Paused,
        JobControlAction::RetryJob => status == JobStatus::Failed,
    }
}

/// One more retry, saturating at the counter's range.
pub open spec fn bump_retry(c: u32) -> u32 {
    if c < u32::MAX {
        (c + 1) as u32
    } else {
        c
    }
}

/// A step sent back to `pending`: error cleared, progress zeroed; all other
/// fields keep their values.
pub open spec fn spec_reset_step(s: ProcessingStep) -> ProcessingStep {
    ProcessingStep { status: StepStatus::Pending, error_message: None, progress: 0, ..s }
}

/// The step list after the named step is reset.
pub open spec fn spec_steps_after_reset(
    steps: Seq<ProcessingStep>,
    key: Seq<char>,
) -> Seq<ProcessingStep> {
    steps.update(step_idx(steps, key), spec_reset_step(steps[step_idx(steps, key)]))
}

/// The step list after every step that is not `completed` is reset.
pub open spec fn spec_steps_after_reset_incomplete(
    steps: Seq<ProcessingStep>,
) -> Seq<ProcessingStep> {
    Seq::new(
        steps.len(),
        |i: int|
            if steps[i].status == StepStatus::Completed {
                steps[i]
            } else {
                spec_reset_step(steps[i])
            },
    )
}

/// Scalar effect that both retry actions share: the job runs again with its
/// error cleared and its retry counter bumped; counts follow the (already
/// reset) steps.
pub open spec fn retry_scalars(j: ProcessingJob, r: ProcessingJob, now_ms: i64) -> bool {
    &&& r.id == j.id
    &&& r.document_id == j.document_id
    &&& r.project_id == j.project_id
    &&& r.status == JobStatus::Running
    &&& r.current_step == j.current_step
    &&& r.completed_steps == done_count(r.steps@)
    &&& r.progress == spec_job_progress(r.completed_steps as int, r.total_steps as int)
    &&& r.total_steps == j.total_steps
    &&& r.error_message is None
    &&& r.error_step is None
    &&& r.retry_count == bump_retry(j.retry_count)
    &&& r.max_retries == j.max_retries
    &&& r.paused_at == j.paused_at
    &&& r.started_at == j.started_at
    &&& r.completed_at == j.completed_at
    &&& r.created_at == j.created_at
    &&& r.updated_at == now_ms
}

/// How a successful control action transforms the job record.
pub open spec fn job_after_action(
    j: ProcessingJob,
    r: ProcessingJob,
    action: JobControlAction,
    now_ms: i64,
) -> bool {
    match action {
        JobControlAction::Pause => r == (ProcessingJob {
            status: JobStatus::Paused,
            paused_at: Some(now_ms),
            updated_at: now_ms,
            ..j
        }),
        JobControlAction::Resume => r == (ProcessingJob {
            status: JobStatus::Running,
            paused_at: None,
            updated_at: now_ms,
            ..j
        }),
        JobControlAction::Cancel => r == (ProcessingJob {
            status: JobStatus::Cancelled,
            completed_at: Some(now_ms),
            error_message: None,
            error_step: None,
            updated_at: now_ms,
            ..j
        }),
        JobControlAction::RetryStep { step_key } => {
            &&& r.steps@ == spec_steps_after_reset(j.steps@, step_key@)
            &&& retry_scalars(j, r, now_ms)
        },
        JobControlAction::RetryJob => {
            &&& r.steps@ == spec_steps_after_reset_incomplete(j.steps@)
            &&& retry_scalars(j, r, now_ms)
        },
    }
}

/// Cancelling is terminal and idempotent in effect: a successful cancel
/// leaves the job `cancelled`, and the guard then refuses a second cancel —
/// which, by `control_job`'s contract, fails with `InvalidTransition` and
/// leaves the store unchanged rather than corrupting state.
pub proof fn lemma_cancel_idempotent(j: ProcessingJob, r: ProcessingJob, now_ms: i64)
    requires
        guard_holds(j.status, JobControlAction::Cancel),
        job_after_action(j, r, JobControlAction::Cancel, now_ms),
    ensures
        r.status == JobStatus::Cancelled,
        !guard_holds(r.status, JobControlAction::Cancel),
{
}

/// Below the retry budget, a whole-job retry increments the retry counter by
/// exactly one; at or above it, `control_job` rejects the retry with
/// `RetryExhausted` instead.
pub proof fn lemma_retry_increments(j: ProcessingJob, r: ProcessingJob, now_ms: i64)
    requires
        j.retry_count < j.max_retries,
        job_after_action(j, r, JobControlAction::RetryJob, now_ms),
    ensures
        r.retry_count == j.retry_count + 1,
{
}

/// With distinct step keys, position `i` holding `key` pins down `step_idx`.
pub proof fn lemma_step_idx_is(steps: Seq<ProcessingStep>, i: int, key: Seq<char>)
    requires
        forall|a: int, b: int|
            0 <= a < steps.len() && 0 <= b < steps.len() && a != b ==> (#[trigger] steps[
                a
            ]).step_key@ != (#[trigger] steps[b]).step_key@,
        0 <= i < steps.len(),
        steps[i].step_key@ == key,
    ensures
        has_step(steps, key),
        step_idx(steps, key) == i,
    {
    assert(has_step(steps, key));
    let idx = step_idx(steps, key);
    assert(0 <= idx < steps.len() && steps[idx].step_key@ == key);
    if idx != i {
        assert(steps[idx].step_key@ != steps[i].step_key@);
    }
}

/// Number of done (completed or skipped) steps, counted.
pub(crate) fn count_done(steps: &Vec<ProcessingStep>) -> (r: usize)
    ensures
        r == done_count(steps@),
        r <= steps@.len(),
{
    proof {
        crate::store::lemma_done_count_bounds(steps@);
    }
    let mut c: usize = 0;
    let mut i: usize = 0;
    while i < steps.len()
        invariant
            i <= steps@.len(),
            c == done_count(steps@.subrange(0, i as int)),
            c <= i,
        decreases steps@.len() - i,
    {
        proof {
            assert(steps@.subrange(0, i + 1).drop_last() =~= steps@.subrange(0, i as int));
            assert(steps@.subrange(0, i + 1).last() == steps@[i as int]);
        }
        if steps[i].status.is_done() {
            c = c + 1;
        }
        i = i + 1;
    }
    proof {
        assert(steps@.subrange(0, steps@.len() as int) =~= steps@);
    }
    c
}

/// The scaled progress fraction for `done` of `total` steps.
pub(crate) fn compute_progress(done: u32, total: u32) -> (r: u32)
    requires
        total >= 1,
        done <= total,
    ensures
        r == spec_job_progress(done as int, total as int),
        r <= PROGRESS_SCALE,
{
    proof {
        lemma_progress_bounds(done as int, total as int);
    }
    let num: u64 = (done as u64) * (PROGRESS_SCALE as u64);
    let q: u64 = num / (total as u64);
    q as u32
}

/// Index of the step with this key, if any.
pub(crate) fn find_step(steps: &Vec<ProcessingStep>, key: &String) -> (r: Option<usize>)
    ensures
        match r {
            Some(i) => i < steps@.len() && steps@[i as int].step_key@ == key@,
            None => !has_step(steps@, key@),
        },
{
    let mut i: usize = 0;
    while i < steps.len()
        invariant
            i <= steps@.len(),
            forall|k: int| 0 <= k < i ==> (#[trigger] steps@[k]).step_key@ != key@,
        decreases steps@.len() - i,
    {
        if steps[i].step_key == *key {
            return Some(i);
        }
        i = i + 1;
    }
    None
}

impl JobStore {
    /// Marks the job `running`; its start time is set the first time it runs.
    pub fn mark_running(&mut self, job_id: u64, now_ms: i64)
        requires
            wf_store(*old(self)),
            has_job(old(self)@, job_id),
            job_with(old(self)@, job_id).status == JobStatus::Queued,
        ensures
            wf_store(*final(self)),
            final(self).next_job_id == old(self).next_job_id,
            final(self).next_step_id == old(self).next_step_id,
            final(self)@ == old(self)@.update(
                job_idx(old(self)@, job_id),
                (ProcessingJob {
                    status: JobStatus::Running,
                    started_at: if job_with(old(self)@, job_id).started_at is Some {
                        job_with(old(self)@, job_id).started_at
                    } else {
                        Some(now_ms)
                    },
                    updated_at: now_ms,
                    ..job_with(old(self)@, job_id)
                }),
            ),
    {
        let i = self.find_job(job_id).unwrap();
        proof {
            lemma_job_idx_is(old(self)@, i as int, job_id);
        }
        let mut job = self.jobs.remove(i);
        job.status = JobStatus::Running;
        job.started_at = match job.started_at {
            Some(t) => Some(t),
            None => Some(now_ms),
        };
        job.updated_at = now_ms;
        self.jobs.insert(i, job);
        proof {
            assert(self@ =~= old(self)@.update(i as int, self@[i as int]));
            assert(wf_job(self@[i as int]));
            assert(wf_store(*self));
        }
    }

    /// Marks the running job `paused`, stamping the pause time.
    pub fn mark_paused(&mut self, job_id: u64, now_ms: i64)
        requires
            wf_store(*old(self)),
            has_job(old(self)@, job_id),
            job_with(old(self)@, job_id).status == JobStatus::Running,
        ensures
            wf_store(*final(self)),
            final(self).next_job_id == old(self).next_job_id,
            final(self).next_step_id == old(self).next_step_id,
            final(self)@ == old(self)@.update(
                job_idx(old(self)@, job_id),
                (ProcessingJob {
                    status: JobStatus::Paused,
                    paused_at: Some(now_ms),
                    updated_at: now_ms,
                    ..job_with(old(self)@, job_id)
                }),
            ),
    {
        let i = self.find_job(job_id).unwrap();
        proof {
            lemma_job_idx_is(old(self)@, i as int, job_id);
        }
        let mut job = self.jobs.remove(i);
        job.status = JobStatus::Paused;
        job.paused_at = Some(now_ms);
        job.updated_at = now_ms;
        self.jobs.insert(i, job);
        proof {
            assert(self@ =~= old(self)@.update(i as int, self@[i as int]));
            assert(wf_job(self@[i as int]));
            assert(wf_store(*self));
        }
    }

    /// Marks the paused job `running` again, clearing the pause time.
    pub fn mark_resumed(&mut self, job_id: u64, now_ms: i64)
        requires
            wf_store(*old(self)),
            has_job(old(self)@, job_id),
            job_with(old(self)@, job_id).status == JobStatus::Paused,
        ensures
            wf_store(*final(self)),
            final(self).next_job_id == old(self).next_job_id,
            final(self).next_step_id == old(self).next_step_id,
            final(self)@ == old(self)@.update(
                job_idx(old(self)@, job_id),
                (ProcessingJob {
                    status: JobStatus::Running,
                    paused_at: None,
                    updated_at: now_ms,
                    ..job_with(old(self)@, job_id)
                }),
            ),
    {
        let i = self.find_job(job_id).unwrap();
        proof {
            lemma_job_idx_is(old(self)@, i as int, job_id);
        }
        let mut job = self.jobs.remove(i);
        job.status = JobStatus::Running;
        job.paused_at = None;
        job.updated_at = now_ms;
        self.jobs.insert(i, job);
        proof {
            assert(self@ =~= old(self)@.update(i as int, self@[i as int]));
            assert(wf_job(self@[i as int]));
            assert(wf_store(*self));
        }
    }

    /// Marks the job `cancelled` (terminal), stamping the completion time and
    /// clearing any error, since the job no longer counts as failed.
    pub fn mark_cancelled(&mut self, job_id: u64, now_ms: i64)
        requires
            wf_store(*old(self)),
            has_job(old(self)@, job_id),
            job_with(old(self)@, job_id).status != JobStatus::Completed,
            job_with(old(self)@, job_id).status != JobStatus::Cancelled,
        ensures
            wf_store(*final(self)),
            final(self).next_job_id == old(self).next_job_id,
            final(self).next_step_id == old(self).next_step_id,
            final(self)@ == old(self)@.update(
                job_idx(old(self)@, job_id),
                (ProcessingJob {
                    status: JobStatus::Cancelled,
                    completed_at: Some(now_ms),
                    error_message: None,
                    error_step: None,
                    updated_at: now_ms,
                    ..job_with(old(self)@, job_id)
                }),
            ),
    {
        let i = self.find_job(job_id).unwrap();
        proof {
            lemma_job_idx_is(old(self)@, i as int, job_id);
        }
        let mut job = self.jobs.remove(i);
        job.status = JobStatus::Cancelled;
        job.completed_at = Some(now_ms);
        job.error_message = None;
        job.error_step = None;
        job.updated_at = now_ms;
        self.jobs.insert(i, job);
        proof {
            assert(self@ =~= old(self)@.update(i as int, self@[i as int]));
            assert(wf_job(self@[i as int]));
            assert(wf_store(*self));
        }
    }

    /// Resets the named step of a failed or paused job to `pending`: error
    /// cleared, progress zeroed; the job's counts follow.
    pub fn reset_step(&mut self, job_id: u64, step_key: &String)
        requires
            wf_store(*old(self)),
            has_job(old(self)@, job_id),
            job_with(old(self)@, job_id).status == JobStatus::Failed || job_with(
                old(self)@,
                job_id,
            ).status == JobStatus::Paused,
            has_step(job_with(old(self)@, job_id).steps@, step_key@),
        ensures
            wf_store(*final(self)),
            final(self).next_job_id == old(self).next_job_id,
            final(self).next_step_id == old(self).next_step_id,
            ({
                let idx = job_idx(old(self)@, job_id);
                let j0 = old(self)@[idx];
                let j1 = final(self)@[idx];
                &&& final(self)@ == old(self)@.update(idx, j1)
                &&& j1.steps@ == spec_steps_after_reset(j0.steps@, step_key@)
                &&& j1.completed_steps == done_count(j1.steps@)
                &&& j1.progress == spec_job_progress(
                    j1.completed_steps as int,
                    j1.total_steps as int,
                )
                &&& j1 == (ProcessingJob {
                    completed_steps: j1.completed_steps,
                    progress: j1.progress,
                    steps: j1.steps,
                    ..j0
                })
            }),
    {
        let i = self.find_job(job_id).unwrap();
        proof {
            lemma_job_idx_is(old(self)@, i as int, job_id);
        }
        let mut job = self.jobs.remove(i);
        let s = find_step(&job.steps, step_key).unwrap();
        proof {
            lemma_step_idx_is(job.steps@, s as int, step_key@);
        }
        let mut step = job.steps.remove(s);
        step.status = StepStatus::Pending;
        step.error_message = None;
        step.progress = 0;
        job.steps.insert(s, step);
        proof {
            assert(job.steps@ =~= spec_steps_after_reset(
                old(self)@[i as int].steps@,
                step_key@,
            ));
        }
        let done = count_done(&job.steps);
        job.completed_steps = done as u32;
        job.progress = compute_progress(job.completed_steps, job.total_steps);
        self.jobs.insert(i, job);
        proof {
            let j0 = old(self)@[i as int];
            let j1 = self@[i as int];
            assert(self@ =~= old(self)@.update(i as int, j1));
            assert forall|k: int| 0 <= k < j1.steps@.len() implies wf_step(
                #[trigger] j1.steps@[k],
            ) && j1.steps@[k].step_order == k + 1 && j1.steps@[k].job_id == j1.id by {
                assert(wf_step(j0.steps@[k]));
            }
            assert forall|a: int, b: int|
                0 <= a < j1.steps@.len() && 0 <= b < j1.steps@.len() && a != b implies (
            #[trigger] j1.steps@[a]).step_key@ != (#[trigger] j1.steps@[b]).step_key@ by {
                assert(j1.steps@[a].step_key@ == j0.steps@[a].step_key@);
                assert(j1.steps@[b].step_key@ == j0.steps@[b].step_key@);
            }
            crate::store::lemma_done_count_bounds(j1.steps@);
            lemma_progress_bounds(j1.completed_steps as int, j1.total_steps as int);
            if j1.current_step is Some {
                let c = choose|k: int|
                    0 <= k < j0.steps@.len() && (#[trigger] j0.steps@[k]).step_key@
                        == j0.current_step->0@;
                assert(j1.steps@[c].step_key@ == j1.current_step->0@);
            }
            assert(wf_job(j1));
            assert(wf_store(*self));
        }
    }

    /// Resets every step of a failed job that is not `completed` back to
    /// `pending`; the job's counts follow.
    pub fn reset_incomplete_steps(&mut self, job_id: u64)
        requires
            wf_store(*old(self)),
            has_job(old(self)@, job_id),
            job_with(old(self)@, job_id).status == JobStatus::Failed,
        ensures
            wf_store(*final(self)),
            final(self).next_job_id == old(self).next_job_id,
            final(self).next_step_id == old(self).next_step_id,
            ({
                let idx = job_idx(old(self)@, job_id);
                let j0 = old(self)@[idx];
                let j1 = final(self)@[idx];
                &&& final(self)@ == old(self)@.update(idx, j1)
                &&& j1.steps@ == spec_steps_after_reset_incomplete(j0.steps@)
                &&& j1.completed_steps == done_count(j1.steps@)
                &&& j1.progress == spec_job_progress(
                    j1.completed_steps as int,
                    j1.total_steps as int,
                )
                &&& j1 == (ProcessingJob {
                    completed_steps: j1.completed_steps,
                    progress: j1.progress,
                    steps: j1.steps,
                    ..j0
                })
            }),
    {
        let i = self.find_job(job_id).unwrap();
        proof {
            lemma_job_idx_is(old(self)@, i as int, job_id);
        }
        let mut job = self.jobs.remove(i);
        let ghost j0 = old(self)@[i as int];
        let ghost steps0 = job.steps@;
        let mut k: usize = 0;
        while k < job.steps.len()
            invariant
                k <= job.steps@.len(),
                job.steps@.len() == steps0.len(),
                job == (ProcessingJob { steps: job.steps, ..j0 }),
                forall|m: int| k <= m < steps0.len() ==> (#[trigger] job.steps@[m]) == steps0[m],
                forall|m: int|
                    0 <= m < k ==> (#[trigger] job.steps@[m]) == (if steps0[m].status
                        == StepStatus::Completed {
                        steps0[m]
                    } else {
                        spec_reset_step(steps0[m])
                    }),
            decreases job.steps@.len() - k,
        {
            if !(job.steps[k].status == StepStatus::Completed) {
                let mut step = job.steps.remove(k);
                step.status = StepStatus::Pending;
                step.error_message = None;
                step.progress = 0;
                job.steps.insert(k, step);
            }
            k = k + 1;
        }
        proof {
            assert(job.steps@ =~= spec_steps_after_reset_incomplete(steps0));
            assert(wf_job(j0));
        }
        let done = count_done(&job.steps);
        job.completed_steps = done as u32;
        job.progress = compute_progress(job.completed_steps, job.total_steps);
        self.jobs.insert(i, job);
        proof {
            let j0 = old(self)@[i as int];
            let j1 = self@[i as int];
            assert(self@ =~= old(self)@.update(i as int, j1));
            assert forall|m: int| 0 <= m < j1.steps@.len() implies wf_step(
                #[trigger] j1.steps@[m],
            ) && j1.steps@[m].step_order == m + 1 && j1.steps@[m].job_id == j1.id && j1.steps@[
                m
            ].step_key@ == j0.steps@[m].step_key@ by {
                assert(wf_step(j0.steps@[m]));
            }
            crate::store::lemma_done_count_bounds(j1.steps@);
            lemma_progress_bounds(j1.completed_steps as int, j1.total_steps as int);
            if j1.current_step is Some {
                let c = choose|m: int|
                    0 <= m < j0.steps@.len() && (#[trigger] j0.steps@[m]).step_key@
                        == j0.current_step->0@;
                assert(j1.steps@[c].step_key@ == j1.current_step->0@);
            }
            assert(wf_job(j1));
            assert(wf_store(*self));
        }
    }

    /// Sends the failed or paused job back to `running` with its error
    /// cleared and its retry counter bumped.
    pub fn increment_retry(&mut self, job_id: u64, now_ms: i64)
        requires
            wf_store(*old(self)),
            has_job(old(self)@, job_id),
            job_with(old(self)@, job_id).status == JobStatus::Failed || job_with(
                old(self)@,
                job_id,
            ).status == JobStatus::Paused,
        ensures
            wf_store(*final(self)),
            final(self).next_job_id == old(self).next_job_id,
            final(self).next_step_id == old(self).next_step_id,
            final(self)@ == old(self)@.update(
                job_idx(old(self)@, job_id),
                (ProcessingJob {
                    status: JobStatus::Running,
                    error_message: None,
                    error_step: None,
                    retry_count: bump_retry(job_with(old(self)@, job_id).retry_count),
                    updated_at: now_ms,
                    ..job_with(old(self)@, job_id)
                }),
            ),
    {
        let i = self.find_job(job_id).unwrap();
        proof {
            lemma_job_idx_is(old(self)@, i as int, job_id);
        }
        let mut job = self.jobs.remove(i);
        job.status = JobStatus::Running;
        job.error_message = None;
        job.error_step = None;
        job.retry_count = if job.retry_count < u32::MAX {
            job.retry_count + 1
        } else {
            job.retry_count
        };
        job.updated_at = now_ms;
        self.jobs.insert(i, job);
        proof {
            assert(self@ =~= old(self)@.update(i as int, self@[i as int]));
            assert(wf_job(self@[i as int]));
            assert(wf_store(*self));
        }
    }

    /// Applies one control action to the job under this project, after
    /// validating it against the guard table. A violated guard, a missing
    /// job or step, or an exhausted retry budget leaves the store untouched
    /// and says why; on success exactly the acted-on job changes, as
    /// [`job_after_action`] describes.
    pub fn control_job(
        &mut self,
        project_id: u128,
        job_id: u64,
        action: &JobControlAction,
        now_ms: i64,
    ) -> (r: Result<(), JobError>)
        requires
            wf_store(*old(self)),
        ensures
            wf_store(*final(self)),
            final(self).next_job_id == old(self).next_job_id,
            final(self).next_step_id == old(self).next_step_id,
            ({
                let jobs0 = old(self)@;
                if !has_job_in(jobs0, project_id, job_id) {
                    r == Err::<(), JobError>(JobError::NotFound) && *final(self) == *old(self)
                } else {
                    let j = job_with(jobs0, job_id);
                    let idx = job_idx(jobs0, job_id);
                    if !guard_holds(j.status, *action) {
                        r == Err::<(), JobError>(
                            JobError::InvalidTransition {
                                current: j.status,
                                requested: requested_status(*action),
                            },
                        ) && *final(self) == *old(self)
                    } else if *action is RetryJob && j.retry_count >= j.max_retries {
                        r == Err::<(), JobError>(
                            JobError::RetryExhausted {
                                retry_count: j.retry_count,
                                max_retries: j.max_retries,
                            },
                        ) && *final(self) == *old(self)
                    } else if (*action matches JobControlAction::RetryStep { step_key }
                        && !has_step(j.steps@, step_key@)) {
                        r == Err::<(), JobError>(JobError::NotFound) && *final(self) == *old(self)
                    } else {
                        &&& r == Ok::<(), JobError>(())
                        &&& final(self)@ == jobs0.update(idx, final(self)@[idx])
                        &&& job_after_action(j, final(self)@[idx], *action, now_ms)
                    }
                }
            }),
    {
        let iopt = self.find_job(job_id);
        let i = match iopt {
            Some(i) => i,
            None => {
                return Err(JobError::NotFound);
            },
        };
        if self.jobs[i].project_id != project_id {
            proof {
                assert forall|k: int|
                    !(0 <= k < self@.len() && (#[trigger] self@[k]).id == job_id && self@[
                        k
                    ].project_id == project_id) by {
                    if 0 <= k < self@.len() && self@[k].id == job_id {
                        lemma_job_ids_unique(self@, k, i as int);
                    }
                }
            }
            return Err(JobError::NotFound);
        }
        proof {
            lemma_job_idx_is(self@, i as int, job_id);
        }
        let status = self.jobs[i].status;
        match action {
            JobControlAction::Pause => {
                if !(status == JobStatus::Running) {
                    return Err(
                        JobError::InvalidTransition {
                            current: status,
                            requested: JobStatus::Paused,
                        },
                    );
                }
                self.mark_paused(job_id, now_ms);
                Ok(())
            },
            JobControlAction::Resume => {
                if !(status == JobStatus::Paused) {
                    return Err(
                        JobError::InvalidTransition {
                            current: status,
                            requested: JobStatus::Running,
                        },
                    );
                }
                self.mark_resumed(job_id, now_ms);
                Ok(())
            },
            JobControlAction::Cancel => {
                if status == JobStatus::Completed || status == JobStatus::Cancelled {
                    return Err(
                        JobError::InvalidTransition {
                            current: status,
                            requested: JobStatus::Cancelled,
                        },
                    );
                }
                self.mark_cancelled(job_id, now_ms);
                Ok(())
            },
            JobControlAction::RetryStep { step_key } => {
                if !(status == JobStatus::Failed || status == JobStatus::Paused) {
                    return Err(
                        JobError::InvalidTransition {
                            current: status,
                            requested: JobStatus::Running,
                        },
                    );
                }
                let sopt = find_step(&self.jobs[i].steps, step_key);
                if sopt.is_none() {
                    return Err(JobError::NotFound);
                }
                let ghost mid0 = *self;
                self.reset_step(job_id, step_key);
                proof {
                    lemma_job_idx_is(self@, i as int, job_id);
                }
                self.increment_retry(job_id, now_ms);
                proof {
                    assert(self@ =~= old(self)@.update(i as int, self@[i as int]));
                }
                Ok(())
            },
            JobControlAction::RetryJob => {
                if !(status == JobStatus::Failed) {
                    return Err(
                        JobError::InvalidTransition {
                            current: status,
                            requested: JobStatus::Running,
                        },
                    );
                }
                if !self.jobs[i].can_retry() {
                    return Err(
                        JobError::RetryExhausted {
                            retry_count: self.jobs[i].retry_count,
                            max_retries: self.jobs[i].max_retries,
                        },
                    );
                }
                self.reset_incomplete_steps(job_id);
                proof {
                    lemma_job_idx_is(self@, i as int, job_id);
                }
                self.increment_retry(job_id, now_ms);
                proof {
                    assert(self@ =~= old(self)@.update(i as int, self@[i as int]));
                }
                Ok(())
            },
        }
    }
}

} // verus!
