//! The write-back surface for the external processing worker.
//!
//! The worker advances a job by starting, progressing, completing, failing
//! or skipping steps. Each write keeps the job's counts and progress
//! consistent, and completing the last outstanding step completes the job.

use vstd::prelude::*;

use crate::PROGRESS_SCALE;
use crate::control::{compute_progress, count_done, find_step, lemma_step_idx_is};
use crate::jobs::{JobStatus, StepStatus};
use crate::store::{
    JobStore, ProcessingJob, ProcessingStep, done_count, has_job, has_step, job_idx, job_with,
    lemma_done_count_bounds, lemma_done_count_update, lemma_job_idx_is, lemma_progress_bounds,
    spec_job_progress, step_idx, wf_job, wf_step, wf_store,
};

verus! {

/// A step may start only when every earlier step needs no further work.
pub open spec fn earlier_steps_done(steps: Seq<ProcessingStep>, i: int) -> bool {
    forall|m: int| 0 <= m < i ==> (#[trigger] steps[m]).status.spec_is_done()
}

impl JobStore {
    /// The worker starts the named pending step of a running job: the step
    /// runs with a fresh start time, and the job points at it as its current
    /// step.
    pub fn mark_step_running(&mut self, job_id: u64, step_key: &String, now_ms: i64)
        requires
            wf_store(*old(self)),
            has_job(old(self)@, job_id),
            job_with(old(self)@, job_id).status == JobStatus::Running,
            has_step(job_with(old(self)@, job_id).steps@, step_key@),
            job_with(old(self)@, job_id).steps@[step_idx(
                job_with(old(self)@, job_id).steps@,
                step_key@,
            )].status == StepStatus::Pending,
            earlier_steps_done(
                job_with(old(self)@, job_id).steps@,
                step_idx(job_with(old(self)@, job_id).steps@, step_key@),
            ),
        ensures
            wf_store(*final(self)),
            final(self).next_job_id == old(self).next_job_id,
            final(self).next_step_id == old(self).next_step_id,
            ({
                let idx = job_idx(old(self)@, job_id);
                let j0 = old(self)@[idx];
                let j1 = final(self)@[idx];
                let sidx = step_idx(j0.steps@, step_key@);
                &&& final(self)@ == old(self)@.update(idx, j1)
                &&& j1.steps@ == j0.steps@.update(
                    sidx,
                    (ProcessingStep {
                        status: StepStatus::Running,
                        started_at: Some(now_ms),
                        ..j0.steps@[sidx]
                    }),
                )
                &&& j1 == (ProcessingJob {
                    current_step: Some(*step_key),
                    updated_at: now_ms,
                    steps: j1.steps,
                    ..j0
                })
            }),
    {
        let i = self.find_job(job_id).unwrap();
        proof {
            lemma_job_idx_is(old(self)@, i as int, job_id);
        }
        let mut job = self.jobs.remove(i);
        let s = find_step(&job.steps, step_key).unwrap();
        proof {
            lemma_step_idx_is(job.steps@, s as int, step_key@);
        }
        let mut step = job.steps.remove(s);
        step.status = StepStatus::Running;
        step.started_at = Some(now_ms);
        job.steps.insert(s, step);
        job.current_step = Some(step_key.clone());
        job.updated_at = now_ms;
        self.jobs.insert(i, job);
        proof {
            let j0 = old(self)@[i as int];
            let j1 = self@[i as int];
            assert(self@ =~= old(self)@.update(i as int, j1));
            assert(j1.steps@ =~= j0.steps@.update(
                s as int,
                (ProcessingStep {
                    status: StepStatus::Running,
                    started_at: Some(now_ms),
                    ..j0.steps@[s as int]
                }),
            ));
            lemma_done_count_update(
                j0.steps@,
                s as int,
                (ProcessingStep {
                    status: StepStatus::Running,
                    started_at: Some(now_ms),
                    ..j0.steps@[s as int]
                }),
            );
            assert forall|a: int, b: int|
                0 <= a < j1.steps@.len() && 0 <= b < j1.steps@.len() && a != b implies (
            #[trigger] j1.steps@[a]).step_key@ != (#[trigger] j1.steps@[b]).step_key@ by {
                assert(j1.steps@[a].step_key@ == j0.steps@[a].step_key@);
                assert(j1.steps@[b].step_key@ == j0.steps@[b].step_key@);
            }
            assert(j1.steps@[s as int].step_key@ == j1.current_step->0@);
            assert(wf_job(j1));
            assert(wf_store(*self));
        }
    }

    /// The worker reports progress within the named running step of a
    /// running job.
    pub fn update_step_progress(
        &mut self,
        job_id: u64,
        step_key: &String,
        progress: u32,
        items_processed: u32,
        items_total: u32,
        message: Option<String>,
        now_ms: i64,
    )
        requires
            wf_store(*old(self)),
            has_job(old(self)@, job_id),
            job_with(old(self)@, job_id).status == JobStatus::Running,
            has_step(job_with(old(self)@, job_id).steps@, step_key@),
            job_with(old(self)@, job_id).steps@[step_idx(
                job_with(old(self)@, job_id).steps@,
                step_key@,
            )].status == StepStatus::Running,
            progress <= PROGRESS_SCALE,
            items_processed <= items_total,
        ensures
            wf_store(*final(self)),
            final(self).next_job_id == old(self).next_job_id,
            final(self).next_step_id == old(self).next_step_id,
            ({
                let idx = job_idx(old(self)@, job_id);
                let j0 = old(self)@[idx];
                let j1 = final(self)@[idx];
                let sidx = step_idx(j0.steps@, step_key@);
                &&& final(self)@ == old(self)@.update(idx, j1)
                &&& j1.steps@ == j0.steps@.update(
                    sidx,
                    (ProcessingStep {
                        progress,
                        items_processed,
                        items_total,
                        message,
                        ..j0.steps@[sidx]
                    }),
                )
                &&& j1 == (ProcessingJob { updated_at: now_ms, steps: j1.steps, ..j0 })
            }),
    {
        let i = self.find_job(job_id).unwrap();
        proof {
            lemma_job_idx_is(old(self)@, i as int, job_id);
        }
        let mut job = self.jobs.remove(i);
        let s = find_step(&job.steps, step_key).unwrap();
        proof {
            lemma_step_idx_is(job.steps@, s as int, step_key@);
        }
        let mut step = job.steps.remove(s);
        step.progress = progress;
        step.items_processed = items_processed;
        step.items_total = items_total;
        step.message = message;
        job.steps.insert(s, step);
        job.updated_at = now_ms;
        self.jobs.insert(i, job);
        proof {
            let j0 = old(self)@[i as int];
            let j1 = self@[i as int];
            assert(self@ =~= old(self)@.update(i as int, j1));
            assert(j1.steps@ =~= j0.steps@.update(
                s as int,
                (ProcessingStep {
                    progress,
                    items_processed,
                    items_total,
                    message,
                    ..j0.steps@[s as int]
                }),
            ));
            lemma_done_count_update(j0.steps@, s as int, j1.steps@[s as int]);
            assert forall|a: int, b: int|
                0 <= a < j1.steps@.len() && 0 <= b < j1.steps@.len() && a != b implies (
            #[trigger] j1.steps@[a]).step_key@ != (#[trigger] j1.steps@[b]).step_key@ by {
                assert(j1.steps@[a].step_key@ == j0.steps@[a].step_key@);
                assert(j1.steps@[b].step_key@ == j0.steps@[b].step_key@);
            }
            if j1.current_step is Some {
                let c = choose|m: int|
                    0 <= m < j0.steps@.len() && (#[trigger] j0.steps@[m]).step_key@
                        == j0.current_step->0@;
                assert(j1.steps@[c].step_key@ == j1.current_step->0@);
            }
            assert(wf_job(j1));
            assert(wf_store(*self));
        }
    }

    /// The worker completes the named running step of a running job: the
    /// step is fully done, the job's counts follow, and completing the last
    /// outstanding step completes the job.
    pub fn mark_step_completed(&mut self, job_id: u64, step_key: &String, now_ms: i64)
        requires
            wf_store(*old(self)),
            has_job(old(self)@, job_id),
            job_with(old(self)@, job_id).status == JobStatus::Running,
            has_step(job_with(old(self)@, job_id).steps@, step_key@),
            job_with(old(self)@, job_id).steps@[step_idx(
                job_with(old(self)@, job_id).steps@,
                step_key@,
            )].status == StepStatus::Running,
        ensures
            wf_store(*final(self)),
            final(self).next_job_id == old(self).next_job_id,
            final(self).next_step_id == old(self).next_step_id,
            ({
                let idx = job_idx(old(self)@, job_id);
                let j0 = old(self)@[idx];
                let j1 = final(self)@[idx];
                let sidx = step_idx(j0.steps@, step_key@);
                &&& final(self)@ == old(self)@.update(idx, j1)
                &&& j1.steps@ == j0.steps@.update(
                    sidx,
                    (ProcessingStep {
                        status: StepStatus::Completed,
                        progress: PROGRESS_SCALE,
                        completed_at: Some(now_ms),
                        ..j0.steps@[sidx]
                    }),
                )
                &&& j1.completed_steps == done_count(j1.steps@)
                &&& j1.progress == spec_job_progress(
                    j1.completed_steps as int,
                    j1.total_steps as int,
                )
                &&& (if j1.completed_steps == j1.total_steps {
                    j1.status == JobStatus::Completed && j1.completed_at == Some(now_ms)
                } else {
                    j1.status == JobStatus::Running && j1.completed_at == j0.completed_at
                })
                &&& j1 == (ProcessingJob {
                    status: j1.status,
                    current_step: None,
                    progress: j1.progress,
                    completed_steps: j1.completed_steps,
                    completed_at: j1.completed_at,
                    updated_at: now_ms,
                    steps: j1.steps,
                    ..j0
                })
            }),
    {
        let i = self.find_job(job_id).unwrap();
        proof {
            lemma_job_idx_is(old(self)@, i as int, job_id);
        }
        let mut job = self.jobs.remove(i);
        let s = find_step(&job.steps, step_key).unwrap();
        proof {
            lemma_step_idx_is(job.steps@, s as int, step_key@);
        }
        let mut step = job.steps.remove(s);
        step.status = StepStatus::Completed;
        step.progress = PROGRESS_SCALE;
        step.completed_at = Some(now_ms);
        job.steps.insert(s, step);
        proof {
            let j0 = old(self)@[i as int];
            assert(job.steps@ =~= j0.steps@.update(
                s as int,
                (ProcessingStep {
                    status: StepStatus::Completed,
                    progress: PROGRESS_SCALE,
                    completed_at: Some(now_ms),
                    ..j0.steps@[s as int]
                }),
            ));
            lemma_done_count_update(j0.steps@, s as int, job.steps@[s as int]);
            lemma_done_count_bounds(job.steps@);
        }
        let done = count_done(&job.steps);
        job.completed_steps = done as u32;
        job.progress = compute_progress(job.completed_steps, job.total_steps);
        job.current_step = None;
        if job.completed_steps == job.total_steps {
            job.status = JobStatus::Completed;
            job.completed_at = Some(now_ms);
        }
        job.updated_at = now_ms;
        self.jobs.insert(i, job);
        proof {
            let j0 = old(self)@[i as int];
            let j1 = self@[i as int];
            assert(self@ =~= old(self)@.update(i as int, j1));
            lemma_progress_bounds(j1.completed_steps as int, j1.total_steps as int);
            assert forall|a: int, b: int|
                0 <= a < j1.steps@.len() && 0 <= b < j1.steps@.len() && a != b implies (
            #[trigger] j1.steps@[a]).step_key@ != (#[trigger] j1.steps@[b]).step_key@ by {
                assert(j1.steps@[a].step_key@ == j0.steps@[a].step_key@);
                assert(j1.steps@[b].step_key@ == j0.steps@[b].step_key@);
            }
            assert(wf_job(j1));
            assert(wf_store(*self));
        }
    }

    /// The worker reports the named running step of a running job as failed:
    /// the step and the job both carry the error, and the job is observable
    /// as failed with the failing step named.
    pub fn mark_step_failed(&mut self, job_id: u64, step_key: &String, error: String, now_ms: i64)
        requires
            wf_store(*old(self)),
            has_job(old(self)@, job_id),
            job_with(old(self)@, job_id).status == JobStatus::Running,
            has_step(job_with(old(self)@, job_id).steps@, step_key@),
            job_with(old(self)@, job_id).steps@[step_idx(
                job_with(old(self)@, job_id).steps@,
                step_key@,
            )].status == StepStatus::Running,
        ensures
            wf_store(*final(self)),
            final(self).next_job_id == old(self).next_job_id,
            final(self).next_step_id == old(self).next_step_id,
            ({
                let idx = job_idx(old(self)@, job_id);
                let j0 = old(self)@[idx];
                let j1 = final(self)@[idx];
                let sidx = step_idx(j0.steps@, step_key@);
                &&& final(self)@ == old(self)@.update(idx, j1)
                &&& j1.steps@ == j0.steps@.update(
                    sidx,
                    (ProcessingStep {
                        status: StepStatus::Failed,
                        error_message: Some(error),
                        ..j0.steps@[sidx]
                    }),
                )
                &&& j1 == (ProcessingJob {
                    status: JobStatus::Failed,
                    current_step: None,
                    error_message: Some(error),
                    error_step: Some(*step_key),
                    updated_at: now_ms,
                    steps: j1.steps,
                    ..j0
                })
            }),
    {
        let i = self.find_job(job_id).unwrap();
        proof {
            lemma_job_idx_is(old(self)@, i as int, job_id);
        }
        let mut job = self.jobs.remove(i);
        let s = find_step(&job.steps, step_key).unwrap();
        proof {
            lemma_step_idx_is(job.steps@, s as int, step_key@);
        }
        let mut step = job.steps.remove(s);
        step.status = StepStatus::Failed;
        step.error_message = Some(error.clone());
        job.steps.insert(s, step);
        job.status = JobStatus::Failed;
        job.current_step = None;
        job.error_message = Some(error);
        job.error_step = Some(step_key.clone());
        job.updated_at = now_ms;
        self.jobs.insert(i, job);
        proof {
            let j0 = old(self)@[i as int];
            let j1 = self@[i as int];
            assert(self@ =~= old(self)@.update(i as int, j1));
            assert(j1.steps@ =~= j0.steps@.update(
                s as int,
                (ProcessingStep {
                    status: StepStatus::Failed,
                    error_message: Some(error),
                    ..j0.steps@[s as int]
                }),
            ));
            lemma_done_count_update(j0.steps@, s as int, j1.steps@[s as int]);
            assert forall|a: int, b: int|
                0 <= a < j1.steps@.len() && 0 <= b < j1.steps@.len() && a != b implies (
            #[trigger] j1.steps@[a]).step_key@ != (#[trigger] j1.steps@[b]).step_key@ by {
                assert(j1.steps@[a].step_key@ == j0.steps@[a].step_key@);
                assert(j1.steps@[b].step_key@ == j0.steps@[b].step_key@);
            }
            assert(wf_job(j1));
            assert(wf_store(*self));
        }
    }

    /// The worker skips the named pending step of a running job: the step
    /// needs no further work, the job's counts follow, and skipping the last
    /// outstanding step completes the job.
    pub fn mark_step_skipped(&mut self, job_id: u64, step_key: &String, now_ms: i64)
        requires
            wf_store(*old(self)),
            has_job(old(self)@, job_id),
            job_with(old(self)@, job_id).status == JobStatus::Running,
            has_step(job_with(old(self)@, job_id).steps@, step_key@),
            job_with(old(self)@, job_id).steps@[step_idx(
                job_with(old(self)@, job_id).steps@,
                step_key@,
            )].status == StepStatus::Pending,
        ensures
            wf_store(*final(self)),
            final(self).next_job_id == old(self).next_job_id,
            final(self).next_step_id == old(self).next_step_id,
            ({
                let idx = job_idx(old(self)@, job_id);
                let j0 = old(self)@[idx];
                let j1 = final(self)@[idx];
                let sidx = step_idx(j0.steps@, step_key@);
                &&& final(self)@ == old(self)@.update(idx, j1)
                &&& j1.steps@ == j0.steps@.update(
                    sidx,
                    (ProcessingStep {
                        status: StepStatus::Skipped,
                        completed_at: Some(now_ms),
                        ..j0.steps@[sidx]
                    }),
                )
                &&& j1.completed_steps == done_count(j1.steps@)
                &&& j1.progress == spec_job_progress(
                    j1.completed_steps as int,
                    j1.total_steps as int,
                )
                &&& (if j1.completed_steps == j1.total_steps {
                    j1.status == JobStatus::Completed && j1.completed_at == Some(now_ms)
                } else {
                    j1.status == JobStatus::Running && j1.completed_at == j0.completed_at
                })
                &&& j1 == (ProcessingJob {
                    status: j1.status,
                    progress: j1.progress,
                    completed_steps: j1.completed_steps,
                    completed_at: j1.completed_at,
                    updated_at: now_ms,
                    steps: j1.steps,
                    ..j0
                })
            }),
    {
        let i = self.find_job(job_id).unwrap();
        proof {
            lemma_job_idx_is(old(self)@, i as int, job_id);
        }
        let mut job = self.jobs.remove(i);
        let s = find_step(&job.steps, step_key).unwrap();
        proof {
            lemma_step_idx_is(job.steps@, s as int, step_key@);
        }
        let mut step = job.steps.remove(s);
        step.status = StepStatus::Skipped;
        step.completed_at = Some(now_ms);
        job.steps.insert(s, step);
        proof {
            let j0 = old(self)@[i as int];
            assert(job.steps@ =~= j0.steps@.update(
                s as int,
                (ProcessingStep {
                    status: StepStatus::Skipped,
                    completed_at: Some(now_ms),
                    ..j0.steps@[s as int]
                }),
            ));
            lemma_done_count_update(j0.steps@, s as int, job.steps@[s as int]);
            lemma_done_count_bounds(job.steps@);
        }
        let done = count_done(&job.steps);
        job.completed_steps = done as u32;
        job.progress = compute_progress(job.completed_steps, job.total_steps);
        if job.completed_steps == job.total_steps {
            job.status = JobStatus::Completed;
            job.completed_at = Some(now_ms);
        }
        job.updated_at = now_ms;
        self.jobs.insert(i, job);
        proof {
            let j0 = old(self)@[i as int];
            let j1 = self@[i as int];
            assert(self@ =~= old(self)@.update(i as int, j1));
            lemma_progress_bounds(j1.completed_steps as int, j1.total_steps as int);
            assert forall|a: int, b: int|
                0 <= a < j1.steps@.len() && 0 <= b < j1.steps@.len() && a != b implies (
            #[trigger] j1.steps@[a]).step_key@ != (#[trigger] j1.steps@[b]).step_key@ by {
                assert(j1.steps@[a].step_key@ == j0.steps@[a].step_key@);
                assert(j1.steps@[b].step_key@ == j0.steps@[b].step_key@);
            }
            if j1.current_step is Some {
                let c = choose|m: int|
                    0 <= m < j0.steps@.len() && (#[trigger] j0.steps@[m]).step_key@
                        == j0.current_step->0@;
                assert(j1.steps@[c].step_key@ == j1.current_step->0@);
            }
            assert(wf_job(j1));
            assert(wf_store(*self));
        }
    }
}

} // verus!
