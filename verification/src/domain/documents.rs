//! Document types: kind, lifecycle status and creation request.

use vstd::prelude::*;

verus! {

/// Kind of construction document.
#[derive(Debug, Clone, Copy, PartialEq, Eq, Structural)]
pub enum DocumentType {
    Plan,
    Specification,
    Addendum,
    Contract,
    ChangeOrder,
    Submittal,
    Rfi,
    Other,
}

impl Default for DocumentType {
    /// Unclassified documents count as `Other`.
    fn default() -> (r: Self)
        ensures
            r == DocumentType::Other,
    {
        DocumentType::Other
    }
}

/// Lifecycle status of a document.
#[derive(Debug, Clone, Copy, PartialEq, Eq, Structural)]
pub enum DocumentStatus {
    Draft,
    Active,
    Superseded,
    Archived,
}

impl Default for DocumentStatus {
    /// A new document starts as a draft.
    fn default() -> (r: Self)
        ensures
            r == DocumentStatus::Draft,
    {
        DocumentStatus::Draft
    }
}

/// Request body for creating a document.
#[derive(Debug, Clone, PartialEq, Eq)]
pub struct CreateDocumentRequest {
    pub name: String,
    pub description: Option<String>,
    pub document_type: DocumentType,
}

} // verus!
