//! RFI (request for information) types: status, priority, responses.

use vstd::prelude::*;

verus! {

/// Lifecycle status of an RFI.
#[derive(Debug, Clone, Copy, PartialEq, Eq, Structural)]
pub enum RFIStatus {
    Open,
    Answered,
    Closed,
}

impl Default for RFIStatus {
    /// A new RFI starts open.
    fn default() -> (r: Self)
        ensures
            r == RFIStatus::Open,
    {
        RFIStatus::Open
    }
}

/// Priority of an RFI.
#[derive(Debug, Clone, Copy, PartialEq, Eq, Structural)]
pub enum RFIPriority {
    Low,
    Medium,
    High,
    Urgent,
}

impl Default for RFIPriority {
    /// Medium unless said otherwise.
    fn default() -> (r: Self)
        ensures
            r == RFIPriority::Medium,
    {
        RFIPriority::Medium
    }
}

/// Request body for answering an RFI.
#[derive(Debug, Clone, PartialEq, Eq)]
pub struct CreateRFIResponseRequest {
    pub content: String,
}

} // verus!
