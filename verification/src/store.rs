//! The job store: the single source of truth for processing jobs and their
//! ordered steps.
//!
//! Every mutation goes through a method with an exact contract, and every
//! method preserves the store's well-formedness: counts stay consistent,
//! progress stays within scale, and timestamps follow the lifecycle.

use vstd::prelude::*;

use crate::PROGRESS_SCALE;
use crate::jobs::{JobStatus, PipelineStepDef, StepStatus, valid_pipeline};
use crate::pagination::PaginationParams;

verus! {

/// How many times a job may be retried as a whole before `RetryJob` is
/// rejected as exhausted.
pub const DEFAULT_MAX_RETRIES: u32 = 3;

/// Errors of the job store and the control state machine.
#[derive(Debug, Clone, Copy, PartialEq, Eq, Structural)]
pub enum JobError {
    /// The job or step does not exist, or is out of the caller's project scope.
    NotFound,
    /// An active job already exists for the document.
    Conflict { existing_job_id: u64 },
    /// The control action's precondition does not hold for the current status.
    InvalidTransition { current: JobStatus, requested: JobStatus },
    /// A whole-job retry was requested but the retry budget is spent.
    RetryExhausted { retry_count: u32, max_retries: u32 },
}

/// One ordered stage of a job's pipeline.
#[derive(Debug, PartialEq, Eq)]
pub struct ProcessingStep {
    pub id: u64,
    pub job_id: u64,
    pub step_key: String,
    pub step_name: String,
    /// 1-based position in the pipeline.
    pub step_order: u32,
    pub status: StepStatus,
    /// Fraction done, scaled by [`PROGRESS_SCALE`].
    pub progress: u32,
    pub message: Option<String>,
    /// Free-form structured payload for step-specific metadata.
    pub details: Option<String>,
    pub items_total: u32,
    pub items_processed: u32,
    pub error_message: Option<String>,
    /// Milliseconds since the Unix epoch; set when the step starts.
    pub started_at: Option<i64>,
    /// Milliseconds since the Unix epoch; set when the step finishes.
    pub completed_at: Option<i64>,
}

/// One end-to-end processing run for a single document.
#[derive(Debug, PartialEq, Eq)]
pub struct ProcessingJob {
    pub id: u64,
    pub document_id: u128,
    pub project_id: u128,
    pub status: JobStatus,
    /// Key of the step currently in progress, if any.
    pub current_step: Option<String>,
    /// Fraction done, scaled by [`PROGRESS_SCALE`].
    pub progress: u32,
    pub total_steps: u32,
    pub completed_steps: u32,
    pub error_message: Option<String>,
    pub error_step: Option<String>,
    pub retry_count: u32,
    pub max_retries: u32,
    /// Milliseconds since the Unix epoch, each set on entering the
    /// corresponding state.
    pub paused_at: Option<i64>,
    pub started_at: Option<i64>,
    pub completed_at: Option<i64>,
    pub created_at: i64,
    pub updated_at: i64,
    pub steps: Vec<ProcessingStep>,
}

/// Number of steps that need no further work (completed or skipped).
pub open spec fn done_count(steps: Seq<ProcessingStep>) -> int
    decreases steps.len(),
{
    if steps.len() == 0 {
        0
    } else {
        done_count(steps.drop_last()) + (if steps.last().status.spec_is_done() {
            1int
        } else {
            0int
        })
    }
}

/// A job's progress fraction (scaled) from its done and total step counts.
pub open spec fn spec_job_progress(done: int, total: int) -> int
    recommends
        total >= 1,
{
    done * PROGRESS_SCALE / total
}

/// Well-formedness of a single step record.
pub open spec fn wf_step(s: ProcessingStep) -> bool {
    &&& s.progress <= PROGRESS_SCALE
    &&& s.items_processed <= s.items_total
    &&& (s.error_message is Some ==> s.status == StepStatus::Failed)
    &&& (s.status == StepStatus::Completed ==> s.progress == PROGRESS_SCALE)
}

/// Well-formedness of a job record: counts are consistent with the steps,
/// progress is within scale, error fields and timestamps follow the status.
pub open spec fn wf_job(j: ProcessingJob) -> bool {
    &&& j.total_steps >= 1
    &&& j.steps@.len() == j.total_steps
    &&& j.completed_steps == done_count(j.steps@)
    &&& j.progress == spec_job_progress(j.completed_steps as int, j.total_steps as int)
    &&& (forall|i: int| 0 <= i < j.steps@.len() ==> wf_step(#[trigger] j.steps@[i]))
    &&& (forall|i: int| 0 <= i < j.steps@.len() ==> (#[trigger] j.steps@[i]).step_order == i + 1)
    &&& (forall|i: int| 0 <= i < j.steps@.len() ==> (#[trigger] j.steps@[i]).job_id == j.id)
    &&& (forall|i: int, k: int|
        0 <= i < j.steps@.len() && 0 <= k < j.steps@.len() && i != k ==> (#[trigger] j.steps@[
            i
        ]).step_key@ != (#[trigger] j.steps@[k]).step_key@)
    &&& (j.error_message is Some <==> j.status == JobStatus::Failed)
    &&& (j.error_step is Some ==> j.status == JobStatus::Failed)
    &&& (j.status == JobStatus::Paused ==> j.paused_at is Some)
    &&& ((j.status == JobStatus::Completed || j.status == JobStatus::Cancelled)
        <==> j.completed_at is Some)
    &&& ((j.status == JobStatus::Running || j.status == JobStatus::Paused || j.status
        == JobStatus::Completed || j.status == JobStatus::Failed) ==> j.started_at is Some)
    &&& (j.status == JobStatus::Completed ==> j.completed_steps == j.total_steps)
    &&& (j.current_step is Some ==> exists|i: int|
        0 <= i < j.steps@.len() && (#[trigger] j.steps@[i]).step_key@ == j.current_step->0@)
}

/// There is a job with this id.
pub open spec fn has_job(jobs: Seq<ProcessingJob>, job_id: u64) -> bool {
    exists|i: int| 0 <= i < jobs.len() && (#[trigger] jobs[i]).id == job_id
}

/// Index of the job with this id (well-defined when ids are distinct).
pub open spec fn job_idx(jobs: Seq<ProcessingJob>, job_id: u64) -> int {
    choose|i: int| 0 <= i < jobs.len() && (#[trigger] jobs[i]).id == job_id
}

/// The job with this id.
pub open spec fn job_with(jobs: Seq<ProcessingJob>, job_id: u64) -> ProcessingJob {
    jobs[job_idx(jobs, job_id)]
}

/// There is a job with this id under this project.
pub open spec fn has_job_in(jobs: Seq<ProcessingJob>, project_id: u128, job_id: u64) -> bool {
    exists|i: int|
        0 <= i < jobs.len() && (#[trigger] jobs[i]).id == job_id && jobs[i].project_id == project_id
}

/// There is an active (queued, running or paused) job for this document.
pub open spec fn has_active_job_for(jobs: Seq<ProcessingJob>, document_id: u128) -> bool {
    exists|i: int|
        0 <= i < jobs.len() && (#[trigger] jobs[i]).document_id == document_id
            && jobs[i].status.spec_is_active()
}

/// The step at the given key exists in the job's pipeline.
pub open spec fn has_step(steps: Seq<ProcessingStep>, step_key: Seq<char>) -> bool {
    exists|i: int| 0 <= i < steps.len() && (#[trigger] steps[i]).step_key@ == step_key
}

/// Index of the step with this key (well-defined when keys are distinct).
pub open spec fn step_idx(steps: Seq<ProcessingStep>, step_key: Seq<char>) -> int {
    choose|i: int| 0 <= i < steps.len() && (#[trigger] steps[i]).step_key@ == step_key
}

/// Durable record of all processing jobs, ordered by creation.
#[derive(Debug)]
pub struct JobStore {
    pub jobs: Vec<ProcessingJob>,
    pub next_job_id: u64,
    pub next_step_id: u64,
}

/// Well-formedness of the whole store: every job is well-formed and job ids
/// are strictly increasing in creation order (hence distinct and below the
/// next id to assign).
pub open spec fn wf_store(s: JobStore) -> bool {
    &&& (forall|i: int| 0 <= i < s.jobs@.len() ==> wf_job(#[trigger] s.jobs@[i]))
    &&& (forall|i: int| 0 <= i < s.jobs@.len() ==> (#[trigger] s.jobs@[i]).id < s.next_job_id)
    &&& (forall|i: int, k: int|
        0 <= i < k < s.jobs@.len() ==> (#[trigger] s.jobs@[i]).id < (#[trigger] s.jobs@[k]).id)
}

impl View for JobStore {
    type V = Seq<ProcessingJob>;

    open spec fn view(&self) -> Seq<ProcessingJob> {
        self.jobs@
    }
}

/// `done_count` is bounded by the number of steps.
pub proof fn lemma_done_count_bounds(steps: Seq<ProcessingStep>)
    ensures
        0 <= done_count(steps) <= steps.len(),
    decreases steps.len(),
{
    if steps.len() > 0 {
        lemma_done_count_bounds(steps.drop_last());
    }
}

/// A pipeline of steps none of which is done has a done count of zero.
pub proof fn lemma_done_count_zero(steps: Seq<ProcessingStep>)
    requires
        forall|i: int| 0 <= i < steps.len() ==> !(#[trigger] steps[i]).status.spec_is_done(),
    ensures
        done_count(steps) == 0,
    decreases steps.len(),
{
    if steps.len() > 0 {
        lemma_done_count_zero(steps.drop_last());
    }
}

/// Replacing one step changes the done count exactly by the step's own
/// contribution.
pub proof fn lemma_done_count_update(s: Seq<ProcessingStep>, i: int, x: ProcessingStep)
    requires
        0 <= i < s.len(),
    ensures
        done_count(s.update(i, x)) == done_count(s) + (if x.status.spec_is_done() {
            1int
        } else {
            0int
        }) - (if s[i].status.spec_is_done() {
            1int
        } else {
            0int
        }),
    decreases s.len(),
{
    if i == s.len() - 1 {
        assert(s.update(i, x).drop_last() =~= s.drop_last());
        assert(s.update(i, x).last() == x);
    } else {
        assert(s.update(i, x).drop_last() =~= s.drop_last().update(i, x));
        assert(s.update(i, x).last() == s.last());
        lemma_done_count_update(s.drop_last(), i, x);
    }
}

/// More steps done never lowers the progress fraction: while a job runs,
/// its progress is monotone non-decreasing.
pub proof fn lemma_progress_monotone(d1: int, d2: int, total: int)
    requires
        0 <= d1 <= d2 <= total,
        total >= 1,
    ensures
        spec_job_progress(d1, total) <= spec_job_progress(d2, total),
{
    let s = PROGRESS_SCALE as int;
    vstd::arithmetic::mul::lemma_mul_inequality(d1, d2, s);
    vstd::arithmetic::div_mod::lemma_div_is_ordered(d1 * s, d2 * s, total);
}

/// The progress fraction stays within scale: zero steps done means zero
/// progress, all steps done means full progress.
pub proof fn lemma_progress_bounds(done: int, total: int)
    requires
        0 <= done <= total,
        total >= 1,
    ensures
        0 <= spec_job_progress(done, total) <= PROGRESS_SCALE,
        done == total ==> spec_job_progress(done, total) == PROGRESS_SCALE,
        done == 0 ==> spec_job_progress(done, total) == 0,
{
    let s = PROGRESS_SCALE as int;
    vstd::arithmetic::mul::lemma_mul_inequality(done, total, s);
    vstd::arithmetic::div_mod::lemma_div_pos_is_pos(done * s, total);
    vstd::arithmetic::div_mod::lemma_div_is_ordered(done * s, total * s, total);
    vstd::arithmetic::div_mod::lemma_div_multiples_vanish(s, total);
    vstd::arithmetic::mul::lemma_mul_is_commutative(total, s);
    if done == 0 {
        vstd::arithmetic::div_mod::lemma_div_of0(total);
    }
}

/// Two positions holding the same job id are the same position, since ids
/// strictly increase along the store.
pub proof fn lemma_job_ids_unique(jobs: Seq<ProcessingJob>, i: int, k: int)
    requires
        forall|a: int, b: int|
            0 <= a < b < jobs.len() ==> (#[trigger] jobs[a]).id < (#[trigger] jobs[b]).id,
        0 <= i < jobs.len(),
        0 <= k < jobs.len(),
        jobs[i].id == jobs[k].id,
    ensures
        i == k,
{
    if i < k {
        assert(jobs[i].id < jobs[k].id);
    } else if k < i {
        assert(jobs[k].id < jobs[i].id);
    }
}

/// With strictly increasing ids, position `i` holding `job_id` pins down
/// `job_idx` and `job_with`.
pub proof fn lemma_job_idx_is(jobs: Seq<ProcessingJob>, i: int, job_id: u64)
    requires
        forall|a: int, b: int|
            0 <= a < b < jobs.len() ==> (#[trigger] jobs[a]).id < (#[trigger] jobs[b]).id,
        0 <= i < jobs.len(),
        jobs[i].id == job_id,
    ensures
        has_job(jobs, job_id),
        job_idx(jobs, job_id) == i,
        job_with(jobs, job_id) == jobs[i],
{
    assert(has_job(jobs, job_id));
    let idx = job_idx(jobs, job_id);
    assert(0 <= idx < jobs.len() && jobs[idx].id == job_id);
    lemma_job_ids_unique(jobs, idx, i);
}

impl ProcessingStep {
    /// Field-for-field copy.
    fn copied(&self) -> (r: Self)
        ensures
            r == *self,
    {
        ProcessingStep {
            id: self.id,
            job_id: self.job_id,
            step_key: self.step_key.clone(),
            step_name: self.step_name.clone(),
            step_order: self.step_order,
            status: self.status,
            progress: self.progress,
            message: clone_opt_string(&self.message),
            details: clone_opt_string(&self.details),
            items_total: self.items_total,
            items_processed: self.items_processed,
            error_message: clone_opt_string(&self.error_message),
            started_at: self.started_at,
            completed_at: self.completed_at,
        }
    }
}

/// Copy of an optional string.
pub(crate) fn clone_opt_string(s: &Option<String>) -> (r: Option<String>)
    ensures
        r == *s,
{
    match s {
        Some(v) => Some(v.clone()),
        None => None,
    }
}

/// Copy of a step list.
fn clone_steps(v: &Vec<ProcessingStep>) -> (r: Vec<ProcessingStep>)
    ensures
        r@ == v@,
{
    let mut r: Vec<ProcessingStep> = Vec::new();
    let mut i: usize = 0;
    while i < v.len()
        invariant
            i <= v@.len(),
            r@ == v@.subrange(0, i as int),
        decreases v@.len() - i,
    {
        r.push(v[i].copied());
        proof {
            assert(r@ =~= v@.subrange(0, i + 1));
        }
        i = i + 1;
    }
    proof {
        assert(r@ =~= v@);
    }
    r
}

impl Clone for ProcessingStep {
    /// An exact copy of the step record.
    fn clone(&self) -> (r: Self)
        ensures
            r == *self,
    {
        self.copied()
    }
}

/// The two job records hold the same data: every scalar field is equal and
/// the step lists hold the same steps. (Two `Vec`s are compared by their
/// contents here, which is all that matters to the store.)
pub open spec fn same_job(a: ProcessingJob, b: ProcessingJob) -> bool {
    &&& a.id == b.id
    &&& a.document_id == b.document_id
    &&& a.project_id == b.project_id
    &&& a.status == b.status
    &&& a.current_step == b.current_step
    &&& a.progress == b.progress
    &&& a.total_steps == b.total_steps
    &&& a.completed_steps == b.completed_steps
    &&& a.error_message == b.error_message
    &&& a.error_step == b.error_step
    &&& a.retry_count == b.retry_count
    &&& a.max_retries == b.max_retries
    &&& a.paused_at == b.paused_at
    &&& a.started_at == b.started_at
    &&& a.completed_at == b.completed_at
    &&& a.created_at == b.created_at
    &&& a.updated_at == b.updated_at
    &&& a.steps@ == b.steps@
}

impl Clone for ProcessingJob {
    /// A copy of the job record holding the same data, steps included.
    fn clone(&self) -> (r: Self)
        ensures
            same_job(r, *self),
    {
        let r = ProcessingJob {
            id: self.id,
            document_id: self.document_id,
            project_id: self.project_id,
            status: self.status,
            current_step: clone_opt_string(&self.current_step),
            progress: self.progress,
            total_steps: self.total_steps,
            completed_steps: self.completed_steps,
            error_message: clone_opt_string(&self.error_message),
            error_step: clone_opt_string(&self.error_step),
            retry_count: self.retry_count,
            max_retries: self.max_retries,
            paused_at: self.paused_at,
            started_at: self.started_at,
            completed_at: self.completed_at,
            created_at: self.created_at,
            updated_at: self.updated_at,
            steps: clone_steps(&self.steps),
        };
        r
    }
}

impl ProcessingJob {
    /// A failed job may be retried as a whole while its retry budget lasts.
    pub open spec fn spec_can_retry(&self) -> bool {
        self.status == JobStatus::Failed && self.retry_count < self.max_retries
    }

    /// Whether the job is failed with retry budget left.
    pub fn can_retry(&self) -> (r: bool)
        ensures
            r == self.spec_can_retry(),
    {
        match self.status {
            JobStatus::Failed => self.retry_count < self.max_retries,
            _ => false,
        }
    }
}

/// The freshly created pending step for one pipeline definition entry.
pub open spec fn spec_new_step(job_id: u64, step_id: u64, def: PipelineStepDef) -> ProcessingStep {
    ProcessingStep {
        id: step_id,
        job_id,
        step_key: def.step_key,
        step_name: def.step_name,
        step_order: def.step_order,
        status: StepStatus::Pending,
        progress: 0,
        message: None,
        details: None,
        items_total: 0,
        items_processed: 0,
        error_message: None,
        started_at: None,
        completed_at: None,
    }
}

/// The job that `create_job` makes: queued for the document, one pending
/// step per pipeline definition entry, counters at zero.
pub open spec fn is_new_job(
    j: ProcessingJob,
    job_id: u64,
    document_id: u128,
    project_id: u128,
    defs: Seq<PipelineStepDef>,
    first_step_id: u64,
    now_ms: i64,
) -> bool {
    &&& j.id == job_id
    &&& j.document_id == document_id
    &&& j.project_id == project_id
    &&& j.status == JobStatus::Queued
    &&& j.current_step is None
    &&& j.progress == 0
    &&& j.total_steps == defs.len()
    &&& j.completed_steps == 0
    &&& j.error_message is None
    &&& j.error_step is None
    &&& j.retry_count == 0
    &&& j.max_retries == DEFAULT_MAX_RETRIES
    &&& j.paused_at is None
    &&& j.started_at is None
    &&& j.completed_at is None
    &&& j.created_at == now_ms
    &&& j.updated_at == now_ms
    &&& j.steps@ == Seq::new(
        defs.len(),
        |i: int| spec_new_step(job_id, (first_step_id + i) as u64, defs[i]),
    )
}

impl JobStore {
    /// An empty store.
    pub fn new() -> (r: Self)
        ensures
            r@ =~= Seq::<ProcessingJob>::empty(),
            wf_store(r),
            r.next_job_id == 1,
            r.next_step_id == 1,
    {
        JobStore { jobs: Vec::new(), next_job_id: 1, next_step_id: 1 }
    }

    /// Index of the job with this id, if any.
    pub(crate) fn find_job(&self, job_id: u64) -> (r: Option<usize>)
        ensures
            match r {
                Some(i) => i < self@.len() && self@[i as int].id == job_id,
                None => !has_job(self@, job_id),
            },
    {
        let mut i: usize = 0;
        while i < self.jobs.len()
            invariant
                i <= self@.len(),
                forall|k: int| 0 <= k < i ==> (#[trigger] self@[k]).id != job_id,
            decreases self@.len() - i,
        {
            if self.jobs[i].id == job_id {
                return Some(i);
            }
            i = i + 1;
        }
        None
    }

    /// Creates a job in `queued` for the document, with one pending step per
    /// pipeline definition entry, unless an active job already occupies the
    /// document — then nothing changes and `Conflict` names the job in the
    /// way.
    pub fn create_job(
        &mut self,
        document_id: u128,
        project_id: u128,
        defs: &Vec<PipelineStepDef>,
        now_ms: i64,
    ) -> (r: Result<u64, JobError>)
        requires
            wf_store(*old(self)),
            valid_pipeline(defs@),
            old(self).next_job_id < u64::MAX,
            old(self).next_step_id + defs@.len() <= u64::MAX,
        ensures
            wf_store(*final(self)),
            match r {
                Ok(job_id) => {
                    &&& !has_active_job_for(old(self)@, document_id)
                    &&& job_id == old(self).next_job_id
                    &&& final(self)@.len() == old(self)@.len() + 1
                    &&& final(self)@.drop_last() == old(self)@
                    &&& is_new_job(
                        final(self)@.last(),
                        job_id,
                        document_id,
                        project_id,
                        defs@,
                        old(self).next_step_id,
                        now_ms,
                    )
                    &&& final(self).next_job_id == old(self).next_job_id + 1
                    &&& final(self).next_step_id == old(self).next_step_id + defs@.len()
                },
                Err(e) => {
                    &&& has_active_job_for(old(self)@, document_id)
                    &&& *final(self) == *old(self)
                    &&& e matches JobError::Conflict { existing_job_id } && exists|i: int|
                        0 <= i < old(self)@.len() && (#[trigger] old(self)@[i]).id
                            == existing_job_id && old(self)@[i].document_id == document_id && old(
                            self,
                        )@[i].status.spec_is_active()
                },
            },
    {
        // Reject while an active job occupies the document.
        let mut i: usize = 0;
        while i < self.jobs.len()
            invariant
                i <= self@.len(),
                *self == *old(self),
                wf_store(*self),
                forall|k: int|
                    0 <= k < i ==> !((#[trigger] self@[k]).document_id == document_id
                        && self@[k].status.spec_is_active()),
            decreases self@.len() - i,
        {
            if self.jobs[i].document_id == document_id && self.jobs[i].status.is_active() {
                proof {
                    assert(0 <= i < self@.len() && (self@[i as int]).document_id == document_id
                        && self@[i as int].status.spec_is_active());
                }
                return Err(JobError::Conflict { existing_job_id: self.jobs[i].id });
            }
            i = i + 1;
        }

        let job_id = self.next_job_id;
        let first_step_id = self.next_step_id;
        let ghost defs_seq = defs@;

        // Materialize one pending step per definition entry.
        let mut steps: Vec<ProcessingStep> = Vec::new();
        let mut k: usize = 0;
        while k < defs.len()
            invariant
                k <= defs_seq.len(),
                defs@ == defs_seq,
                first_step_id + defs_seq.len() <= u64::MAX,
                steps@ =~= Seq::new(
                    k as nat,
                    |i: int| spec_new_step(job_id, (first_step_id + i) as u64, defs_seq[i]),
                ),
            decreases defs_seq.len() - k,
        {
            let def = &defs[k];
            steps.push(ProcessingStep {
                id: first_step_id + (k as u64),
                job_id,
                step_key: def.step_key.clone(),
                step_name: def.step_name.clone(),
                step_order: def.step_order,
                status: StepStatus::Pending,
                progress: 0,
                message: None,
                details: None,
                items_total: 0,
                items_processed: 0,
                error_message: None,
                started_at: None,
                completed_at: None,
            });
            proof {
                assert(steps@ =~= Seq::new(
                    (k + 1) as nat,
                    |i: int| spec_new_step(job_id, (first_step_id + i) as u64, defs_seq[i]),
                ));
            }
            k = k + 1;
        }

        let total_steps: u32 = defs.len() as u32;
        let job = ProcessingJob {
            id: job_id,
            document_id,
            project_id,
            status: JobStatus::Queued,
            current_step: None,
            progress: 0,
            total_steps,
            completed_steps: 0,
            error_message: None,
            error_step: None,
            retry_count: 0,
            max_retries: DEFAULT_MAX_RETRIES,
            paused_at: None,
            started_at: None,
            completed_at: None,
            created_at: now_ms,
            updated_at: now_ms,
            steps,
        };
        proof {
            assert(is_new_job(
                job,
                job_id,
                document_id,
                project_id,
                defs_seq,
                first_step_id,
                now_ms,
            ));
            assert forall|i: int| 0 <= i < job.steps@.len() implies !(#[trigger] job.steps@[
                i
            ]).status.spec_is_done() by {
                assert(job.steps@[i] == spec_new_step(
                    job_id,
                    (first_step_id + i) as u64,
                    defs_seq[i],
                ));
            }
            lemma_done_count_zero(job.steps@);
            lemma_progress_bounds(0, job.total_steps as int);
            assert forall|i: int| 0 <= i < job.steps@.len() implies wf_step(
                #[trigger] job.steps@[i],
            ) by {
                assert(job.steps@[i] == spec_new_step(
                    job_id,
                    (first_step_id + i) as u64,
                    defs_seq[i],
                ));
            }
            assert(wf_job(job));
        }
        let ghost old_jobs = self.jobs@;
        self.jobs.push(job);
        self.next_job_id = self.next_job_id + 1;
        self.next_step_id = self.next_step_id + total_steps as u64;
        proof {
            assert(self@.drop_last() =~= old_jobs);
            assert forall|a: int, b: int| 0 <= a < b < self@.len() implies (#[trigger] self@[
                a
            ]).id < (#[trigger] self@[b]).id by {
                if b == self@.len() - 1 {
                    assert(self@[a] == old_jobs[a]);
                }
            }
            assert(wf_store(*self));
        }
        Ok(job_id)
    }

    /// The job with this id under this project, with its steps; `NotFound`
    /// when absent or out of scope.
    pub fn get_job(&self, project_id: u128, job_id: u64) -> (r: Result<&ProcessingJob, JobError>)
        requires
            wf_store(*self),
        ensures
            match r {
                Ok(j) => {
                    &&& has_job_in(self@, project_id, job_id)
                    &&& *j == job_with(self@, job_id)
                    &&& j.project_id == project_id
                },
                Err(e) => {
                    &&& e == JobError::NotFound
                    &&& !has_job_in(self@, project_id, job_id)
                },
            },
    {
        match self.find_job(job_id) {
            Some(i) => {
                let j = &self.jobs[i];
                if j.project_id == project_id {
                    proof {
                        lemma_job_idx_is(self@, i as int, job_id);
                    }
                    Ok(j)
                } else {
                    proof {
                        assert forall|k: int|
                            !(0 <= k < self@.len() && (#[trigger] self@[k]).id == job_id && self@[
                                k
                            ].project_id == project_id) by {
                            if 0 <= k < self@.len() && self@[k].id == job_id {
                                lemma_job_ids_unique(self@, k, i as int);
                            }
                        }
                    }
                    Err(JobError::NotFound)
                }
            },
            None => Err(JobError::NotFound),
        }
    }
}

/// Filter for listing a project's jobs.
#[derive(Debug, Clone, Copy, PartialEq, Eq, Structural)]
pub struct JobQuery {
    pub pagination: PaginationParams,
    pub status: Option<JobStatus>,
    pub document_id: Option<u128>,
}

/// The job passes the listing filter: it belongs to the project and matches
/// the optional status and document filters.
pub open spec fn matches_query(j: ProcessingJob, project_id: u128, q: JobQuery) -> bool {
    &&& j.project_id == project_id
    &&& (q.status is Some ==> j.status == q.status->0)
    &&& (q.document_id is Some ==> j.document_id == q.document_id->0)
}

/// The jobs that pass the filter, newest first (jobs are stored in creation
/// order, so newest first is reverse store order).
pub open spec fn filtered_rev(
    jobs: Seq<ProcessingJob>,
    project_id: u128,
    q: JobQuery,
) -> Seq<ProcessingJob>
    decreases jobs.len(),
{
    if jobs.len() == 0 {
        Seq::empty()
    } else {
        (if matches_query(jobs.last(), project_id, q) {
            seq![jobs.last()]
        } else {
            Seq::empty()
        }) + filtered_rev(jobs.drop_last(), project_id, q)
    }
}

/// Peeling the oldest job off the store appends at most that job to the end
/// of the newest-first filtered listing.
pub proof fn lemma_filtered_rev_drop_first(jobs: Seq<ProcessingJob>, project_id: u128, q: JobQuery)
    requires
        jobs.len() > 0,
    ensures
        filtered_rev(jobs, project_id, q) == filtered_rev(jobs.drop_first(), project_id, q) + (
        if matches_query(jobs.first(), project_id, q) {
            seq![jobs.first()]
        } else {
            Seq::<ProcessingJob>::empty()
        }),
    decreases jobs.len(),
{
    if jobs.len() == 1 {
        assert(jobs.drop_last() =~= Seq::<ProcessingJob>::empty());
        assert(jobs.drop_first() =~= Seq::<ProcessingJob>::empty());
        assert(jobs.last() == jobs.first());
        assert(filtered_rev(jobs, project_id, q) =~= filtered_rev(
            jobs.drop_first(),
            project_id,
            q,
        ) + (if matches_query(jobs.first(), project_id, q) {
            seq![jobs.first()]
        } else {
            Seq::<ProcessingJob>::empty()
        }));
    } else {
        lemma_filtered_rev_drop_first(jobs.drop_last(), project_id, q);
        assert(jobs.drop_last().drop_first() =~= jobs.drop_first().drop_last());
        assert(jobs.drop_last().first() == jobs.first());
        assert(jobs.drop_first().last() == jobs.last());
        assert(filtered_rev(jobs, project_id, q) =~= filtered_rev(
            jobs.drop_first(),
            project_id,
            q,
        ) + (if matches_query(jobs.first(), project_id, q) {
            seq![jobs.first()]
        } else {
            Seq::<ProcessingJob>::empty()
        }));
    }
}

/// At most one job is active for the document.
pub open spec fn at_most_one_active(jobs: Seq<ProcessingJob>, document_id: u128) -> bool {
    forall|i: int, k: int|
        0 <= i < jobs.len() && 0 <= k < jobs.len() && (#[trigger] jobs[i]).document_id
            == document_id && jobs[i].status.spec_is_active() && (#[trigger] jobs[k]).document_id
            == document_id && jobs[k].status.spec_is_active() ==> i == k
}

/// Creating a job never yields two concurrently-active jobs for one
/// document: `create_job` appends the new job only when no active job for
/// the document exists, so afterwards at most the new job is active for it.
pub proof fn lemma_create_preserves_single_active(
    jobs: Seq<ProcessingJob>,
    j: ProcessingJob,
    document_id: u128,
)
    requires
        !has_active_job_for(jobs, document_id),
    ensures
        at_most_one_active(jobs.push(j), document_id),
{
    let s = jobs.push(j);
    assert forall|i: int, k: int|
        0 <= i < s.len() && 0 <= k < s.len() && (#[trigger] s[i]).document_id == document_id && s[
            i
        ].status.spec_is_active() && (#[trigger] s[k]).document_id == document_id && s[
            k
        ].status.spec_is_active() implies i == k by {
        if i < jobs.len() {
            assert(jobs[i] == s[i]);
            assert(has_active_job_for(jobs, document_id));
        }
        if k < jobs.len() {
            assert(jobs[k] == s[k]);
            assert(has_active_job_for(jobs, document_id));
        }
    }
}

impl JobStore {
    /// The project's jobs that match the filter, newest first, cut to the
    /// requested page; also the total number of matches, for pagination.
    pub fn list_jobs(&self, project_id: u128, query: &JobQuery) -> (r: (
        Vec<ProcessingJob>,
        u64,
    ))
        requires
            wf_store(*self),
        ensures
            ({
                let all = filtered_rev(self@, project_id, *query);
                let pp = query.pagination.spec_per_page() as int;
                let off = (query.pagination.spec_page() - 1) * pp;
                &&& r.1 == all.len()
                &&& r.0@.len() == (if off >= all.len() {
                    0int
                } else if off + pp <= all.len() {
                    pp
                } else {
                    all.len() - off
                })
                &&& forall|k: int|
                    0 <= k < r.0@.len() ==> same_job(#[trigger] r.0@[k], all[off + k])
            }),
    {
        let ghost all_s = filtered_rev(self@, project_id, *query);
        let mut all: Vec<ProcessingJob> = Vec::new();
        let mut i: usize = self.jobs.len();
        while i > 0
            invariant
                i <= self@.len(),
                all@.len() == filtered_rev(
                    self@.subrange(i as int, self@.len() as int),
                    project_id,
                    *query,
                ).len(),
                forall|k: int|
                    0 <= k < all@.len() ==> same_job(
                        #[trigger] all@[k],
                        filtered_rev(
                            self@.subrange(i as int, self@.len() as int),
                            project_id,
                            *query,
                        )[k],
                    ),
            decreases i,
        {
            i = i - 1;
            proof {
                let suf = self@.subrange(i as int, self@.len() as int);
                lemma_filtered_rev_drop_first(suf, project_id, *query);
                assert(suf.drop_first() =~= self@.subrange(i + 1, self@.len() as int));
                assert(suf.first() == self@[i as int]);
            }
            let j = &self.jobs[i];
            let ok_status = match query.status {
                Some(st) => j.status == st,
                None => true,
            };
            let ok_doc = match query.document_id {
                Some(d) => j.document_id == d,
                None => true,
            };
            if j.project_id == project_id && ok_status && ok_doc {
                all.push(j.clone());
            }
        }
        proof {
            assert(self@.subrange(0, self@.len() as int) =~= self@);
        }
        let total: u64 = all.len() as u64;
        let page = query.pagination.page();
        let per_page = query.pagination.per_page();
        proof {
            assert(((page - 1) as u64) as int * ((per_page as u64)) as int <= u64::MAX) by (
            nonlinear_arith)
                requires
                    ((page - 1) as u64) <= u32::MAX,
                    ((per_page as u64)) <= 100,
            ;
        }
        let off64: u64 = ((page - 1) as u64) * (per_page as u64);
        let start: usize = if off64 >= total {
            all.len()
        } else {
            off64 as usize
        };
        let remaining: usize = all.len() - start;
        let take: usize = if (per_page as usize) < remaining {
            per_page as usize
        } else {
            remaining
        };
        let end: usize = start + take;
        let mut out: Vec<ProcessingJob> = Vec::new();
        let mut k: usize = start;
        while k < end
            invariant
                start <= k <= end,
                end <= all@.len(),
                out@.len() == k - start,
                forall|m: int| 0 <= m < out@.len() ==> same_job(#[trigger] out@[m], all@[start + m]),
            decreases end - k,
        {
            out.push(all[k].clone());
            k = k + 1;
        }
        (out, total)
    }
}

} // verus!
