//! Subcontractor directory types.

use vstd::prelude::*;

verus! {

/// A recent project shown on a subcontractor's card; the value is in cents
/// and the completion date is an ISO string.
#[derive(Debug, Clone, PartialEq, Eq)]
pub struct RecentProject {
    pub name: String,
    pub value: i64,
    pub completed: String,
}

} // verus!
