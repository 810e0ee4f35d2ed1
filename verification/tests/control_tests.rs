//! The control state machine: the guard table, retries and the lifecycle
//! scenarios.

use jobflow::jobs::{JobControlAction, JobStatus, PipelineStepDef, StartProcessingRequest};
use jobflow::store::{JobError, JobStore};
use jobflow::PROGRESS_SCALE;

fn defs(n: u32) -> Vec<PipelineStepDef> {
    let mut v = Vec::new();
    let mut i: u32 = 0;
    while i < n {
        v.push(PipelineStepDef {
            step_key: format!("step{}", i + 1),
            step_name: format!("Step {}", i + 1),
            step_order: i + 1,
        });
        i += 1;
    }
    v
}

/// A fresh store holding one job in the wanted status, under project 7.
fn job_in_status(status: JobStatus) -> (JobStore, u64) {
    let mut store = JobStore::new();
    let job_id = store.create_job(1, 7, &defs(2), 0).expect("create");
    match status {
        JobStatus::Queued => {}
        JobStatus::Running => {
            store.mark_running(job_id, 1);
        }
        JobStatus::Paused => {
            store.mark_running(job_id, 1);
            store.control_job(7, job_id, &JobControlAction::Pause, 2).expect("pause");
        }
        JobStatus::Completed => {
            store.mark_running(job_id, 1);
            store.mark_step_running(job_id, &"step1".to_string(), 2);
            store.mark_step_completed(job_id, &"step1".to_string(), 3);
            store.mark_step_running(job_id, &"step2".to_string(), 4);
            store.mark_step_completed(job_id, &"step2".to_string(), 5);
        }
        JobStatus::Failed => {
            store.mark_running(job_id, 1);
            store.mark_step_running(job_id, &"step1".to_string(), 2);
            store.mark_step_failed(job_id, &"step1".to_string(), "boom".to_string(), 3);
        }
        JobStatus::Cancelled => {
            store.control_job(7, job_id, &JobControlAction::Cancel, 1).expect("cancel");
        }
    }
    assert_eq!(store.get_job(7, job_id).expect("get").status, status);
    (store, job_id)
}

const ALL_STATUSES: [JobStatus; 6] = [
    JobStatus::Queued,
    JobStatus::Running,
    JobStatus::Paused,
    JobStatus::Completed,
    JobStatus::Failed,
    JobStatus::Cancelled,
];

fn allowed(status: JobStatus, action: &JobControlAction) -> bool {
    match action {
        JobControlAction::Pause => status == JobStatus::Running,
        JobControlAction::Resume => status == JobStatus::Paused,
        JobControlAction::Cancel => {
            status != JobStatus::Completed && status != JobStatus::Cancelled
        }
        JobControlAction::RetryStep { .. } => {
            status == JobStatus::Failed || status == JobStatus::Paused
        }
        JobControlAction::RetryJob => status == JobStatus::Failed,
    }
}

#[test]
fn guard_table_is_exhaustive_over_all_actions_and_statuses() {
    let actions = [
        JobControlAction::Pause,
        JobControlAction::Resume,
        JobControlAction::Cancel,
        JobControlAction::RetryStep { step_key: "step1".to_string() },
        JobControlAction::RetryJob,
    ];
    for status in ALL_STATUSES {
        for action in &actions {
            let (mut store, job_id) = job_in_status(status);
            let before = store.get_job(7, job_id).expect("get").clone();
            let result = store.control_job(7, job_id, action, 99);
            if allowed(status, action) {
                assert!(
                    result.is_ok(),
                    "expected {:?} on {:?} to succeed, got {:?}",
                    action,
                    status,
                    result
                );
            } else {
                match result {
                    Err(JobError::InvalidTransition { current, .. }) => {
                        assert_eq!(current, status)
                    }
                    other => panic!(
                        "expected InvalidTransition for {:?} on {:?}, got {:?}",
                        action, status, other
                    ),
                }
                // A refused action changes nothing.
                let after = store.get_job(7, job_id).expect("get");
                assert_eq!(after.status, before.status);
                assert_eq!(after.updated_at, before.updated_at);
                assert_eq!(after.retry_count, before.retry_count);
            }
        }
    }
}

#[test]
fn control_on_unknown_job_is_not_found() {
    let mut store = JobStore::new();
    assert_eq!(
        store.control_job(7, 42, &JobControlAction::Pause, 1).unwrap_err(),
        JobError::NotFound
    );
}

#[test]
fn retry_step_with_unknown_key_is_not_found() {
    let (mut store, job_id) = job_in_status(JobStatus::Failed);
    let action = JobControlAction::RetryStep { step_key: "no_such_step".to_string() };
    assert_eq!(store.control_job(7, job_id, &action, 9).unwrap_err(), JobError::NotFound);
}

#[test]
fn create_then_auto_start_runs_the_job() {
    // A newly created job is queued with all steps pending; auto-start
    // moves it to running and stamps the start time.
    let mut store = JobStore::new();
    let req = StartProcessingRequest { auto_start: None };
    let job_id = store.start_processing(1, 7, &defs(3), &req, 1000).expect("start");
    let job = store.get_job(7, job_id).expect("get");
    assert_eq!(job.status, JobStatus::Running);
    assert_eq!(job.started_at, Some(1000));
    assert_eq!(job.total_steps, 3);
    assert_eq!(job.completed_steps, 0);
    assert_eq!(job.steps.len(), 3);
    assert!(job.steps.iter().all(|s| s.status == jobflow::jobs::StepStatus::Pending));
}

#[test]
fn start_processing_without_auto_start_leaves_job_queued() {
    let mut store = JobStore::new();
    let req = StartProcessingRequest { auto_start: Some(false) };
    let job_id = store.start_processing(1, 7, &defs(3), &req, 1000).expect("start");
    let job = store.get_job(7, job_id).expect("get");
    assert_eq!(job.status, JobStatus::Queued);
    assert!(job.started_at.is_none());
}

#[test]
fn pause_sets_paused_at_and_resume_clears_it() {
    let (mut store, job_id) = job_in_status(JobStatus::Running);
    store.control_job(7, job_id, &JobControlAction::Pause, 50).expect("pause");
    let job = store.get_job(7, job_id).expect("get");
    assert_eq!(job.status, JobStatus::Paused);
    assert_eq!(job.paused_at, Some(50));

    store.control_job(7, job_id, &JobControlAction::Resume, 60).expect("resume");
    let job = store.get_job(7, job_id).expect("get");
    assert_eq!(job.status, JobStatus::Running);
    assert!(job.paused_at.is_none());
}

#[test]
fn cancel_succeeds_once_then_fails_invalid_transition() {
    let (mut store, job_id) = job_in_status(JobStatus::Running);
    store.control_job(7, job_id, &JobControlAction::Cancel, 50).expect("cancel");
    let job = store.get_job(7, job_id).expect("get").clone();
    assert_eq!(job.status, JobStatus::Cancelled);
    assert_eq!(job.completed_at, Some(50));

    match store.control_job(7, job_id, &JobControlAction::Cancel, 60) {
        Err(JobError::InvalidTransition { current, requested }) => {
            assert_eq!(current, JobStatus::Cancelled);
            assert_eq!(requested, JobStatus::Cancelled);
        }
        other => panic!("expected InvalidTransition, got {:?}", other),
    }
    // The refused second cancel left the job exactly as it was.
    let after = store.get_job(7, job_id).expect("get");
    assert_eq!(after.status, JobStatus::Cancelled);
    assert_eq!(after.completed_at, Some(50));
    assert_eq!(after.updated_at, job.updated_at);
}

#[test]
fn failed_step_is_observable_and_retry_step_resets_it() {
    // Worker marks step 2 of 3 failed with "OCR timeout": the job is
    // observable as failed with the step named and retry available; a step
    // retry then resets the step and runs the job again.
    let mut store = JobStore::new();
    let req = StartProcessingRequest { auto_start: Some(true) };
    let job_id = store.start_processing(1, 7, &defs(3), &req, 0).expect("start");
    store.mark_step_running(job_id, &"step1".to_string(), 1);
    store.mark_step_completed(job_id, &"step1".to_string(), 2);
    store.mark_step_running(job_id, &"step2".to_string(), 3);
    store.mark_step_failed(job_id, &"step2".to_string(), "OCR timeout".to_string(), 4);

    let job = store.get_job(7, job_id).expect("get");
    assert_eq!(job.status, JobStatus::Failed);
    assert_eq!(job.error_message.as_deref(), Some("OCR timeout"));
    assert_eq!(job.error_step.as_deref(), Some("step2"));
    assert_eq!(job.retry_count, 0);
    assert!(job.can_retry());
    let step2 = job.steps.iter().find(|s| s.step_key == "step2").expect("step2");
    assert_eq!(step2.status, jobflow::jobs::StepStatus::Failed);
    assert_eq!(step2.error_message.as_deref(), Some("OCR timeout"));

    let action = JobControlAction::RetryStep { step_key: "step2".to_string() };
    store.control_job(7, job_id, &action, 5).expect("retry step");
    let job = store.get_job(7, job_id).expect("get");
    assert_eq!(job.status, JobStatus::Running);
    assert_eq!(job.retry_count, 1);
    assert!(job.error_message.is_none());
    assert!(job.error_step.is_none());
    let step2 = job.steps.iter().find(|s| s.step_key == "step2").expect("step2");
    assert_eq!(step2.status, jobflow::jobs::StepStatus::Pending);
    assert!(step2.error_message.is_none());
    assert_eq!(step2.progress, 0);
}

#[test]
fn retry_job_counts_up_to_the_budget_then_exhausts() {
    let mut store = JobStore::new();
    let req = StartProcessingRequest { auto_start: Some(true) };
    let job_id = store.start_processing(1, 7, &defs(1), &req, 0).expect("start");
    let mut t: i64 = 1;
    for expected_count in 1..=3u32 {
        store.mark_step_running(job_id, &"step1".to_string(), t);
        store.mark_step_failed(job_id, &"step1".to_string(), "boom".to_string(), t + 1);
        let job = store.get_job(7, job_id).expect("get");
        assert_eq!(job.status, JobStatus::Failed);
        assert!(job.can_retry());
        store.control_job(7, job_id, &JobControlAction::RetryJob, t + 2).expect("retry");
        let job = store.get_job(7, job_id).expect("get");
        assert_eq!(job.retry_count, expected_count);
        assert_eq!(job.status, JobStatus::Running);
        t += 10;
    }
    // Budget of three spent: the next whole-job retry is exhausted.
    store.mark_step_running(job_id, &"step1".to_string(), t);
    store.mark_step_failed(job_id, &"step1".to_string(), "boom".to_string(), t + 1);
    let job = store.get_job(7, job_id).expect("get");
    assert!(!job.can_retry());
    match store.control_job(7, job_id, &JobControlAction::RetryJob, t + 2) {
        Err(JobError::RetryExhausted { retry_count, max_retries }) => {
            assert_eq!(retry_count, 3);
            assert_eq!(max_retries, 3);
        }
        other => panic!("expected RetryExhausted, got {:?}", other),
    }
}

#[test]
fn retry_job_resets_incomplete_steps_only() {
    let mut store = JobStore::new();
    let req = StartProcessingRequest { auto_start: Some(true) };
    let job_id = store.start_processing(1, 7, &defs(3), &req, 0).expect("start");
    store.mark_step_running(job_id, &"step1".to_string(), 1);
    store.mark_step_completed(job_id, &"step1".to_string(), 2);
    store.mark_step_running(job_id, &"step2".to_string(), 3);
    store.mark_step_failed(job_id, &"step2".to_string(), "boom".to_string(), 4);

    store.control_job(7, job_id, &JobControlAction::RetryJob, 5).expect("retry");
    let job = store.get_job(7, job_id).expect("get");
    let s1 = &job.steps[0];
    let s2 = &job.steps[1];
    let s3 = &job.steps[2];
    assert_eq!(s1.status, jobflow::jobs::StepStatus::Completed);
    assert_eq!(s2.status, jobflow::jobs::StepStatus::Pending);
    assert_eq!(s3.status, jobflow::jobs::StepStatus::Pending);
    assert_eq!(job.completed_steps, 1);
    assert_eq!(job.progress, PROGRESS_SCALE / 3);
}

#[test]
fn completing_every_step_completes_the_job() {
    let mut store = JobStore::new();
    let req = StartProcessingRequest { auto_start: Some(true) };
    let job_id = store.start_processing(1, 7, &defs(2), &req, 0).expect("start");
    store.mark_step_running(job_id, &"step1".to_string(), 1);
    store.mark_step_completed(job_id, &"step1".to_string(), 2);
    let job = store.get_job(7, job_id).expect("get");
    assert_eq!(job.status, JobStatus::Running);
    assert_eq!(job.progress, PROGRESS_SCALE / 2);
    store.mark_step_running(job_id, &"step2".to_string(), 3);
    store.mark_step_completed(job_id, &"step2".to_string(), 4);
    let job = store.get_job(7, job_id).expect("get");
    assert_eq!(job.status, JobStatus::Completed);
    assert_eq!(job.completed_at, Some(4));
    assert_eq!(job.completed_steps, 2);
    assert_eq!(job.progress, PROGRESS_SCALE);
}

#[test]
fn skipping_a_step_counts_as_done() {
    let mut store = JobStore::new();
    let req = StartProcessingRequest { auto_start: Some(true) };
    let job_id = store.start_processing(1, 7, &defs(2), &req, 0).expect("start");
    store.mark_step_skipped(job_id, &"step1".to_string(), 1);
    store.mark_step_running(job_id, &"step2".to_string(), 2);
    store.mark_step_completed(job_id, &"step2".to_string(), 3);
    let job = store.get_job(7, job_id).expect("get");
    assert_eq!(job.status, JobStatus::Completed);
    assert_eq!(job.steps[0].status, jobflow::jobs::StepStatus::Skipped);
    assert_eq!(job.completed_steps, 2);
}
