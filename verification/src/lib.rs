//! Verified core of a document-processing job orchestrator.
//!
//! A long-running ingestion pipeline (upload, OCR, chunk, embed, extract) is
//! tracked as a job with ordered steps. The job store owns all state, the
//! control state machine validates operator actions against a guard table,
//! and the progress publisher derives typed events for a live stream.

use vstd::prelude::*;

pub mod config;
pub mod control;
pub mod domain;
pub mod events;
pub mod jobs;
pub mod orchestrator;
pub mod pagination;
pub mod response;
pub mod store;
pub mod text;
pub mod worker;

verus! {

/// Fixed-point scale for progress fractions: a progress value of
/// [`PROGRESS_SCALE`] stands for the fraction 1.0.
pub const PROGRESS_SCALE: u32 = 10000;

} // verus!
