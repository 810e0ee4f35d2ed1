//! The job store: creation, the single-active-job rule, lookup and listing.

use jobflow::jobs::{JobStatus, PipelineStepDef, StepStatus};
use jobflow::pagination::PaginationParams;
use jobflow::store::{JobError, JobQuery, JobStore};
use jobflow::PROGRESS_SCALE;

fn defs(n: u32) -> Vec<PipelineStepDef> {
    let mut v = Vec::new();
    let mut i: u32 = 0;
    while i < n {
        v.push(PipelineStepDef {
            step_key: format!("step{}", i + 1),
            step_name: format!("Step {}", i + 1),
            step_order: i + 1,
        });
        i += 1;
    }
    v
}

fn plain_query() -> JobQuery {
    JobQuery {
        pagination: PaginationParams { page: None, per_page: None },
        status: None,
        document_id: None,
    }
}

#[test]
fn create_job_materializes_one_pending_step_per_entry() {
    let mut store = JobStore::new();
    let job_id = store.create_job(1, 7, &defs(3), 1000).expect("create");
    let job = store.get_job(7, job_id).expect("get");
    assert_eq!(job.status, JobStatus::Queued);
    assert_eq!(job.total_steps, 3);
    assert_eq!(job.completed_steps, 0);
    assert_eq!(job.progress, 0);
    assert_eq!(job.steps.len(), 3);
    for (i, s) in job.steps.iter().enumerate() {
        assert_eq!(s.status, StepStatus::Pending);
        assert_eq!(s.step_order as usize, i + 1);
        assert_eq!(s.progress, 0);
        assert!(s.error_message.is_none());
        assert!(s.started_at.is_none());
    }
    assert_eq!(job.steps[0].step_key, "step1");
    assert_eq!(job.steps[2].step_key, "step3");
    assert_eq!(job.created_at, 1000);
    assert!(job.started_at.is_none());
}

#[test]
fn create_job_conflicts_while_a_job_is_active() {
    let mut store = JobStore::new();
    let first = store.create_job(1, 7, &defs(2), 1000).expect("create");
    match store.create_job(1, 7, &defs(2), 2000) {
        Err(JobError::Conflict { existing_job_id }) => assert_eq!(existing_job_id, first),
        other => panic!("expected Conflict, got {:?}", other),
    }
    // Still exactly one job for the document.
    let (jobs, total) = store.list_jobs(7, &plain_query());
    assert_eq!(total, 1);
    assert_eq!(jobs.len(), 1);
}

#[test]
fn create_job_allowed_again_after_cancel() {
    let mut store = JobStore::new();
    let first = store.create_job(1, 7, &defs(2), 1000).expect("create");
    store
        .control_job(7, first, &jobflow::jobs::JobControlAction::Cancel, 1500)
        .expect("cancel");
    let second = store.create_job(1, 7, &defs(2), 2000).expect("second create");
    assert_ne!(first, second);
}

#[test]
fn get_job_not_found_for_unknown_id_or_wrong_project() {
    let mut store = JobStore::new();
    let job_id = store.create_job(1, 7, &defs(2), 1000).expect("create");
    assert_eq!(store.get_job(7, 999).unwrap_err(), JobError::NotFound);
    assert_eq!(store.get_job(8, job_id).unwrap_err(), JobError::NotFound);
    assert!(store.get_job(7, job_id).is_ok());
}

#[test]
fn list_jobs_is_newest_first_and_filters() {
    let mut store = JobStore::new();
    let a = store.create_job(1, 7, &defs(2), 1000).expect("a");
    let b = store.create_job(2, 7, &defs(2), 2000).expect("b");
    let c = store.create_job(3, 7, &defs(2), 3000).expect("c");
    let _other_project = store.create_job(4, 9, &defs(2), 4000).expect("d");

    let (jobs, total) = store.list_jobs(7, &plain_query());
    assert_eq!(total, 3);
    assert_eq!(jobs.len(), 3);
    assert_eq!(jobs[0].id, c);
    assert_eq!(jobs[1].id, b);
    assert_eq!(jobs[2].id, a);

    let by_doc = JobQuery { document_id: Some(2), ..plain_query() };
    let (jobs, total) = store.list_jobs(7, &by_doc);
    assert_eq!(total, 1);
    assert_eq!(jobs[0].id, b);

    let by_status = JobQuery { status: Some(JobStatus::Queued), ..plain_query() };
    let (_, total) = store.list_jobs(7, &by_status);
    assert_eq!(total, 3);
    let none = JobQuery { status: Some(JobStatus::Failed), ..plain_query() };
    let (jobs, total) = store.list_jobs(7, &none);
    assert_eq!(total, 0);
    assert!(jobs.is_empty());
}

#[test]
fn list_jobs_pages() {
    let mut store = JobStore::new();
    for d in 1..=5u128 {
        store.create_job(d, 7, &defs(1), d as i64).expect("create");
    }
    let q = JobQuery {
        pagination: PaginationParams { page: Some(2), per_page: Some(2) },
        status: None,
        document_id: None,
    };
    let (jobs, total) = store.list_jobs(7, &q);
    assert_eq!(total, 5);
    assert_eq!(jobs.len(), 2);
    // Newest first: page 2 of size 2 holds the third- and fourth-newest.
    assert_eq!(jobs[0].document_id, 3);
    assert_eq!(jobs[1].document_id, 2);
}

#[test]
fn counts_and_progress_stay_in_bounds_after_every_mutation() {
    let mut store = JobStore::new();
    let job_id = store.create_job(1, 7, &defs(3), 0).expect("create");
    let check = |store: &JobStore| {
        let job = store.get_job(7, job_id).expect("get");
        assert!(job.completed_steps <= job.total_steps);
        assert!(job.progress <= PROGRESS_SCALE);
        for s in job.steps.iter() {
            assert!(s.progress <= PROGRESS_SCALE);
            assert!(s.items_processed <= s.items_total);
        }
    };
    check(&store);
    store.mark_running(job_id, 1);
    check(&store);
    store.mark_step_running(job_id, &"step1".to_string(), 2);
    check(&store);
    store.update_step_progress(job_id, &"step1".to_string(), 5000, 5, 10, None, 3);
    check(&store);
    store.mark_step_completed(job_id, &"step1".to_string(), 4);
    check(&store);
    store.mark_step_running(job_id, &"step2".to_string(), 5);
    check(&store);
    store.mark_step_failed(job_id, &"step2".to_string(), "boom".to_string(), 6);
    check(&store);
    store
        .control_job(7, job_id, &jobflow::jobs::JobControlAction::RetryJob, 7)
        .expect("retry");
    check(&store);
}
