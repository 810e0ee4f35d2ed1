//! Project types: the project lifecycle status.

use vstd::prelude::*;

verus! {

/// Lifecycle status of a project.
#[derive(Debug, Clone, Copy, PartialEq, Eq, Structural)]
pub enum ProjectStatus {
    Draft,
    Active,
    Bidding,
    Awarded,
    InProgress,
    Completed,
    Cancelled,
}

impl Default for ProjectStatus {
    /// A new project starts as a draft.
    fn default() -> (r: Self)
        ensures
            r == ProjectStatus::Draft,
    {
        ProjectStatus::Draft
    }
}

} // verus!
