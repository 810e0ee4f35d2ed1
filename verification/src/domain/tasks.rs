//! Task types: status and priority.

use vstd::prelude::*;

verus! {

/// Status of a task.
#[derive(Debug, Clone, Copy, PartialEq, Eq, Structural)]
pub enum TaskStatus {
    Todo,
    InProgress,
    Completed,
}

impl Default for TaskStatus {
    /// A new task starts in the to-do column.
    fn default() -> (r: Self)
        ensures
            r == TaskStatus::Todo,
    {
        TaskStatus::Todo
    }
}

/// Priority of a task.
#[derive(Debug, Clone, Copy, PartialEq, Eq, Structural)]
pub enum TaskPriority {
    Low,
    Medium,
    High,
    Urgent,
}

impl Default for TaskPriority {
    /// Medium unless said otherwise.
    fn default() -> (r: Self)
        ensures
            r == TaskPriority::Medium,
    {
        TaskPriority::Medium
    }
}

} // verus!
