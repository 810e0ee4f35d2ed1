//! The orchestrator trigger: creates a job for a document and, unless the
//! caller opts out, moves it straight to `running` so the external worker
//! can pick it up.
//!
//! Notifying the worker is a one-way side effect outside this store; the job
//! record alone says whether processing may begin.

use vstd::prelude::*;

use crate::jobs::{JobStatus, PipelineStepDef, StartProcessingRequest, valid_pipeline};
use crate::store::{
    DEFAULT_MAX_RETRIES, JobError, JobStore, ProcessingJob, has_active_job_for, is_new_job,
    lemma_job_idx_is, spec_new_step, wf_store,
};

verus! {

/// The job that an auto-started `start_processing` leaves behind: as
/// [`is_new_job`], but already running with its start time stamped.
pub open spec fn is_autostarted_job(
    j: ProcessingJob,
    job_id: u64,
    document_id: u128,
    project_id: u128,
    defs: Seq<PipelineStepDef>,
    first_step_id: u64,
    now_ms: i64,
) -> bool {
    &&& j.id == job_id
    &&& j.document_id == document_id
    &&& j.project_id == project_id
    &&& j.status == JobStatus::Running
    &&& j.current_step is None
    &&& j.progress == 0
    &&& j.total_steps == defs.len()
    &&& j.completed_steps == 0
    &&& j.error_message is None
    &&& j.error_step is None
    &&& j.retry_count == 0
    &&& j.max_retries == DEFAULT_MAX_RETRIES
    &&& j.paused_at is None
    &&& j.started_at == Some(now_ms)
    &&& j.completed_at is None
    &&& j.created_at == now_ms
    &&& j.updated_at == now_ms
    &&& j.steps@ == Seq::new(
        defs.len(),
        |i: int| spec_new_step(job_id, (first_step_id + i) as u64, defs[i]),
    )
}

/// Whether the request asks for an immediate start (the default).
pub open spec fn wants_auto_start(req: StartProcessingRequest) -> bool {
    match req.auto_start {
        Some(b) => b,
        None => true,
    }
}

impl JobStore {
    /// Starts processing a document: creates the job with its pipeline steps
    /// and, unless `auto_start` is `false`, marks it running at once. Fails
    /// with `Conflict` while an active job occupies the document, leaving
    /// the store untouched.
    pub fn start_processing(
        &mut self,
        document_id: u128,
        project_id: u128,
        defs: &Vec<PipelineStepDef>,
        req: &StartProcessingRequest,
        now_ms: i64,
    ) -> (r: Result<u64, JobError>)
        requires
            wf_store(*old(self)),
            valid_pipeline(defs@),
            old(self).next_job_id < u64::MAX,
            old(self).next_step_id + defs@.len() <= u64::MAX,
        ensures
            wf_store(*final(self)),
            match r {
                Ok(job_id) => {
                    &&& !has_active_job_for(old(self)@, document_id)
                    &&& job_id == old(self).next_job_id
                    &&& final(self)@.len() == old(self)@.len() + 1
                    &&& final(self)@.drop_last() == old(self)@
                    &&& (if wants_auto_start(*req) {
                        is_autostarted_job(
                            final(self)@.last(),
                            job_id,
                            document_id,
                            project_id,
                            defs@,
                            old(self).next_step_id,
                            now_ms,
                        )
                    } else {
                        is_new_job(
                            final(self)@.last(),
                            job_id,
                            document_id,
                            project_id,
                            defs@,
                            old(self).next_step_id,
                            now_ms,
                        )
                    })
                    &&& final(self).next_job_id == old(self).next_job_id + 1
                    &&& final(self).next_step_id == old(self).next_step_id + defs@.len()
                },
                Err(e) => {
                    &&& has_active_job_for(old(self)@, document_id)
                    &&& *final(self) == *old(self)
                    &&& e matches JobError::Conflict { existing_job_id } && exists|i: int|
                        0 <= i < old(self)@.len() && (#[trigger] old(self)@[i]).id
                            == existing_job_id && old(self)@[i].document_id == document_id && old(
                            self,
                        )@[i].status.spec_is_active()
                },
            },
    {
        let job_id = match self.create_job(document_id, project_id, defs, now_ms) {
            Ok(id) => id,
            Err(e) => {
                return Err(e);
            },
        };
        let auto_start = match req.auto_start {
            Some(b) => b,
            None => true,
        };
        if auto_start {
            proof {
                lemma_job_idx_is(self@, self@.len() - 1, job_id);
            }
            self.mark_running(job_id, now_ms);
            proof {
                assert(self@.drop_last() =~= old(self)@);
            }
        }
        Ok(job_id)
    }
}

} // verus!
