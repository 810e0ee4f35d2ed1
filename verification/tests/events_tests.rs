//! The progress publisher: heartbeats and per-job status events.

use jobflow::events::{event_label, JobProgressEvent};
use jobflow::jobs::{JobControlAction, JobStatus, PipelineStepDef, StartProcessingRequest};
use jobflow::store::JobStore;

fn defs(n: u32) -> Vec<PipelineStepDef> {
    let mut v = Vec::new();
    let mut i: u32 = 0;
    while i < n {
        v.push(PipelineStepDef {
            step_key: format!("step{}", i + 1),
            step_name: format!("Step {}", i + 1),
            step_order: i + 1,
        });
        i += 1;
    }
    v
}

#[test]
fn no_active_jobs_yields_a_single_heartbeat() {
    // A subscriber with zero active jobs sees heartbeats, not job events.
    let store = JobStore::new();
    let events = store.poll_events_at(7, 12345);
    assert_eq!(events.len(), 1);
    match &events[0] {
        JobProgressEvent::Heartbeat { timestamp } => assert_eq!(*timestamp, 12345),
        other => panic!("expected Heartbeat, got {:?}", other),
    }
}

#[test]
fn poll_events_uses_the_clock_for_heartbeats() {
    let store = JobStore::new();
    let events = store.poll_events(7);
    assert_eq!(events.len(), 1);
    assert!(matches!(events[0], JobProgressEvent::Heartbeat { .. }));
}

#[test]
fn each_active_job_yields_one_status_event() {
    let mut store = JobStore::new();
    let req = StartProcessingRequest { auto_start: None };
    let running = store.start_processing(1, 7, &defs(2), &req, 0).expect("a");
    let queued = store
        .create_job(2, 7, &defs(2), 1)
        .expect("b");
    let paused = store.start_processing(3, 7, &defs(2), &req, 2).expect("c");
    store.control_job(7, paused, &JobControlAction::Pause, 3).expect("pause");

    let events = store.poll_events_at(7, 99);
    assert_eq!(events.len(), 3);
    let mut seen: Vec<(u64, JobStatus)> = Vec::new();
    for e in &events {
        match e {
            JobProgressEvent::JobStatusChanged { job_id, status, progress, .. } => {
                assert_eq!(*progress, 0);
                seen.push((*job_id, *status));
            }
            other => panic!("expected JobStatusChanged, got {:?}", other),
        }
    }
    assert!(seen.contains(&(running, JobStatus::Running)));
    assert!(seen.contains(&(queued, JobStatus::Queued)));
    assert!(seen.contains(&(paused, JobStatus::Paused)));
}

#[test]
fn finished_jobs_and_other_projects_emit_nothing() {
    let mut store = JobStore::new();
    let req = StartProcessingRequest { auto_start: None };
    let cancelled = store.start_processing(1, 7, &defs(2), &req, 0).expect("a");
    store.control_job(7, cancelled, &JobControlAction::Cancel, 1).expect("cancel");
    let _elsewhere = store.start_processing(2, 9, &defs(2), &req, 2).expect("b");

    let events = store.poll_events_at(7, 50);
    assert_eq!(events.len(), 1);
    assert!(matches!(events[0], JobProgressEvent::Heartbeat { timestamp: 50 }));
}

#[test]
fn event_labels_separate_heartbeats_from_job_updates() {
    let hb = JobProgressEvent::Heartbeat { timestamp: 1 };
    assert_eq!(event_label(&hb), "heartbeat");
    let up = JobProgressEvent::JobStatusChanged {
        job_id: 1,
        status: JobStatus::Running,
        progress: 0,
        current_step: None,
    };
    assert_eq!(event_label(&up), "job_update");
    let done = JobProgressEvent::JobCompleted { job_id: 1, duration_ms: 10 };
    assert_eq!(event_label(&done), "job_update");
}
