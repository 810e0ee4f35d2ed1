//! Shapes shared with the external AI service: analysis outputs, request
//! bodies and job tracking, as the service reports them.

use vstd::prelude::*;

verus! {

/// Scope item for a single trade.
#[derive(Debug, Clone, PartialEq, Eq)]
pub struct TradeScopeItem {
    pub trade: String,
    pub csi_division: Option<String>,
    pub inclusions: Vec<String>,
    pub exclusions: Vec<String>,
    pub required_sheets: Vec<String>,
    pub spec_sections: Vec<String>,
    pub rfi_needed: Vec<String>,
    pub assumptions: Vec<String>,
}

/// Generated tender scope document.
#[derive(Debug, Clone, PartialEq, Eq)]
pub struct TenderScopeDoc {
    pub trade: String,
    pub overview: String,
    pub inclusions: Vec<String>,
    pub exclusions: Vec<String>,
    pub allowances: Vec<String>,
    pub alternates: Vec<String>,
    pub submittals: Vec<String>,
    pub schedule_notes: Vec<String>,
    pub lead_times: Vec<String>,
    pub bid_instructions: Vec<String>,
    pub rfi_questions: Vec<String>,
    pub markdown: String,
}

/// Vision OCR result from a drawing page.
#[derive(Debug, Clone, PartialEq, Eq)]
pub struct VisionOCRResult {
    pub page_number: i32,
    pub sheet_number: Option<String>,
    pub sheet_title: Option<String>,
    pub drawing_type: Option<String>,
    pub discipline: Option<String>,
    pub text_content: String,
    pub annotations: Vec<String>,
    pub dimensions: Vec<String>,
    pub notes: Vec<String>,
    pub materials: Vec<String>,
    pub references: Vec<String>,
}

/// Request for plan summary generation.
#[derive(Debug, Clone, PartialEq, Eq)]
pub struct PlanSummaryRequest {
    pub document_text: String,
    pub instructions: Option<String>,
}

/// Request for trade scope extraction.
#[derive(Debug, Clone, PartialEq, Eq)]
pub struct TradeScopesRequest {
    pub document_text: String,
    pub trades: Option<Vec<String>>,
}

/// Response for a tender scope document.
#[derive(Debug, Clone, PartialEq, Eq)]
pub struct TenderScopeDocResponse {
    pub project_id: String,
    pub trade: String,
    pub document: TenderScopeDoc,
}

/// Standard trades list response.
#[derive(Debug, Clone, PartialEq, Eq)]
pub struct StandardTradesResponse {
    pub trades: Vec<String>,
}

/// Status of a job on the AI service's side.
#[derive(Debug, Clone, Copy, PartialEq, Eq, Structural)]
pub enum JobStatus {
    Queued,
    Running,
    Succeeded,
    Failed,
    Cancelled,
}

/// Kind of work an AI service job performs.
#[derive(Debug, Clone, Copy, PartialEq, Eq, Structural)]
pub enum JobType {
    DocumentIngest,
    PlanSummary,
    TradeScopeExtract,
    TenderScopeDoc,
    Qna,
}

} // verus!
