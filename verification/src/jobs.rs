//! Core vocabulary of the processing-job subsystem: job and step statuses,
//! pipeline stage keys, control actions, and the canonical ingestion pipeline.

use vstd::prelude::*;

verus! {

/// Lifecycle status of a processing job.
#[derive(Debug, Clone, Copy, PartialEq, Eq, Structural)]
pub enum JobStatus {
    Queued,
    Running,
    Paused,
    Completed,
    Failed,
    Cancelled,
}

impl JobStatus {
    /// The wire name of this status.
    pub open spec fn spec_as_str(self) -> Seq<char> {
        match self {
            JobStatus::Queued => "queued"@,
            JobStatus::Running => "running"@,
            JobStatus::Paused => "paused"@,
            JobStatus::Completed => "completed"@,
            JobStatus::Failed => "failed"@,
            JobStatus::Cancelled => "cancelled"@,
        }
    }

    /// Lower-case wire name of this status.
    pub fn as_str(self) -> (r: &'static str)
        ensures
            r@ == self.spec_as_str(),
    {
        match self {
            JobStatus::Queued => "queued",
            JobStatus::Running => "running",
            JobStatus::Paused => "paused",
            JobStatus::Completed => "completed",
            JobStatus::Failed => "failed",
            JobStatus::Cancelled => "cancelled",
        }
    }

    /// A job in one of these statuses still occupies its document: no second
    /// job may be created for the same document while one is active.
    pub open spec fn spec_is_active(self) -> bool {
        self == JobStatus::Queued || self == JobStatus::Running || self == JobStatus::Paused
    }

    /// Whether this status counts as active (queued, running or paused).
    pub fn is_active(self) -> (r: bool)
        ensures
            r == self.spec_is_active(),
    {
        match self {
            JobStatus::Queued => true,
            JobStatus::Running => true,
            JobStatus::Paused => true,
            _ => false,
        }
    }
}

/// Lifecycle status of a single pipeline step.
#[derive(Debug, Clone, Copy, PartialEq, Eq, Structural)]
pub enum StepStatus {
    Pending,
    Running,
    Completed,
    Failed,
    Skipped,
}

impl StepStatus {
    /// The wire name of this status.
    pub open spec fn spec_as_str(self) -> Seq<char> {
        match self {
            StepStatus::Pending => "pending"@,
            StepStatus::Running => "running"@,
            StepStatus::Completed => "completed"@,
            StepStatus::Failed => "failed"@,
            StepStatus::Skipped => "skipped"@,
        }
    }

    /// Lower-case wire name of this status.
    pub fn as_str(self) -> (r: &'static str)
        ensures
            r@ == self.spec_as_str(),
    {
        match self {
            StepStatus::Pending => "pending",
            StepStatus::Running => "running",
            StepStatus::Completed => "completed",
            StepStatus::Failed => "failed",
            StepStatus::Skipped => "skipped",
        }
    }

    /// A step in one of these statuses needs no further work.
    pub open spec fn spec_is_done(self) -> bool {
        self == StepStatus::Completed || self == StepStatus::Skipped
    }

    /// Whether this status counts as done (completed or skipped).
    pub fn is_done(self) -> (r: bool)
        ensures
            r == self.spec_is_done(),
    {
        match self {
            StepStatus::Completed => true,
            StepStatus::Skipped => true,
            _ => false,
        }
    }
}

/// Stable identifiers of the canonical ingestion pipeline stages.
#[derive(Debug, Clone, Copy, PartialEq, Eq, Structural)]
pub enum StepKey {
    Upload,
    Validate,
    ExtractPages,
    OcrPages,
    ChunkText,
    GenerateEmbeddings,
    StoreVectors,
    ExtractTradeScopes,
    ExtractMaterials,
    ExtractRooms,
    GenerateMilestones,
    Finalize,
}

impl StepKey {
    /// The stable key of this stage.
    pub open spec fn spec_as_str(self) -> Seq<char> {
        match self {
            StepKey::Upload => "upload"@,
            StepKey::Validate => "validate"@,
            StepKey::ExtractPages => "extract_pages"@,
            StepKey::OcrPages => "ocr_pages"@,
            StepKey::ChunkText => "chunk_text"@,
            StepKey::GenerateEmbeddings => "generate_embeddings"@,
            StepKey::StoreVectors => "store_vectors"@,
            StepKey::ExtractTradeScopes => "extract_trade_scopes"@,
            StepKey::ExtractMaterials => "extract_materials"@,
            StepKey::ExtractRooms => "extract_rooms"@,
            StepKey::GenerateMilestones => "generate_milestones"@,
            StepKey::Finalize => "finalize"@,
        }
    }

    /// Snake-case stable key of this stage.
    pub fn as_str(self) -> (r: &'static str)
        ensures
            r@ == self.spec_as_str(),
    {
        match self {
            StepKey::Upload => "upload",
            StepKey::Validate => "validate",
            StepKey::ExtractPages => "extract_pages",
            StepKey::OcrPages => "ocr_pages",
            StepKey::ChunkText => "chunk_text",
            StepKey::GenerateEmbeddings => "generate_embeddings",
            StepKey::StoreVectors => "store_vectors",
            StepKey::ExtractTradeScopes => "extract_trade_scopes",
            StepKey::ExtractMaterials => "extract_materials",
            StepKey::ExtractRooms => "extract_rooms",
            StepKey::GenerateMilestones => "generate_milestones",
            StepKey::Finalize => "finalize",
        }
    }
}

/// Request body for starting document processing.
#[derive(Debug, Clone, Copy, PartialEq, Eq, Structural)]
pub struct StartProcessingRequest {
    /// Move the job straight to `running` after creation (default true).
    pub auto_start: Option<bool>,
}

/// Operator action on a job's lifecycle.
#[derive(Debug, Clone, PartialEq, Eq)]
pub enum JobControlAction {
    Pause,
    Resume,
    Cancel,
    RetryStep { step_key: String },
    RetryJob,
}

/// Request body for a job control action.
#[derive(Debug, Clone, PartialEq, Eq)]
pub struct JobControlRequest {
    pub action: JobControlAction,
}

/// One entry of a pipeline definition: the stage's stable key, its display
/// name, and its 1-based position.
#[derive(Debug, Clone, PartialEq, Eq)]
pub struct PipelineStepDef {
    pub step_key: String,
    pub step_name: String,
    pub step_order: u32,
}

/// A pipeline definition is valid when it has at least one stage, stage
/// orders run 1, 2, ... in sequence, and stage keys are distinct.
pub open spec fn valid_pipeline(defs: Seq<PipelineStepDef>) -> bool {
    &&& defs.len() >= 1
    &&& defs.len() <= u32::MAX
    &&& forall|i: int| 0 <= i < defs.len() ==> #[trigger] defs[i].step_order == i + 1
    &&& forall|i: int, j: int|
        0 <= i < defs.len() && 0 <= j < defs.len() && i != j ==> (#[trigger] defs[i].step_key@)
            != (#[trigger] defs[j].step_key@)
}

/// Default processing steps for document ingestion.
pub fn default_ingestion_steps() -> (r: Vec<(StepKey, &'static str, i32)>)
    ensures
        r@.len() == 12,
        forall|i: int| 0 <= i < 12 ==> (#[trigger] r@[i].2) == i + 1,
        r@[0].0 == StepKey::Upload && r@[0].1@ == "Uploading Document"@,
        r@[1].0 == StepKey::Validate && r@[1].1@ == "Validating Document"@,
        r@[2].0 == StepKey::ExtractPages && r@[2].1@ == "Extracting Pages"@,
        r@[3].0 == StepKey::OcrPages && r@[3].1@ == "OCR Processing"@,
        r@[4].0 == StepKey::ChunkText && r@[4].1@ == "Chunking Text"@,
        r@[5].0 == StepKey::GenerateEmbeddings && r@[5].1@ == "Generating Embeddings"@,
        r@[6].0 == StepKey::StoreVectors && r@[6].1@ == "Storing Vectors"@,
        r@[7].0 == StepKey::ExtractTradeScopes && r@[7].1@ == "Extracting Trade Scopes"@,
        r@[8].0 == StepKey::ExtractMaterials && r@[8].1@ == "Extracting Materials"@,
        r@[9].0 == StepKey::ExtractRooms && r@[9].1@ == "Extracting Rooms"@,
        r@[10].0 == StepKey::GenerateMilestones && r@[10].1@ == "Generating Milestones"@,
        r@[11].0 == StepKey::Finalize && r@[11].1@ == "Finalizing"@,
{
    let mut v: Vec<(StepKey, &'static str, i32)> = Vec::new();
    v.push((StepKey::Upload, "Uploading Document", 1));
    v.push((StepKey::Validate, "Validating Document", 2));
    v.push((StepKey::ExtractPages, "Extracting Pages", 3));
    v.push((StepKey::OcrPages, "OCR Processing", 4));
    v.push((StepKey::ChunkText, "Chunking Text", 5));
    v.push((StepKey::GenerateEmbeddings, "Generating Embeddings", 6));
    v.push((StepKey::StoreVectors, "Storing Vectors", 7));
    v.push((StepKey::ExtractTradeScopes, "Extracting Trade Scopes", 8));
    v.push((StepKey::ExtractMaterials, "Extracting Materials", 9));
    v.push((StepKey::ExtractRooms, "Extracting Rooms", 10));
    v.push((StepKey::GenerateMilestones, "Generating Milestones", 11));
    v.push((StepKey::Finalize, "Finalizing", 12));
    v
}

/// Materializes a stage list such as [`default_ingestion_steps`] into
/// pipeline definition entries with string keys.
pub fn pipeline_from_steps(steps: &Vec<(StepKey, &'static str, i32)>) -> (r: Vec<PipelineStepDef>)
    requires
        forall|i: int| 0 <= i < steps@.len() ==> (#[trigger] steps@[i].2) >= 0,
    ensures
        r@.len() == steps@.len(),
        forall|i: int|
            0 <= i < steps@.len() ==> {
                &&& (#[trigger] r@[i]).step_key@ == steps@[i].0.spec_as_str()
                &&& r@[i].step_name@ == steps@[i].1@
                &&& r@[i].step_order == steps@[i].2
            },
{
    let mut r: Vec<PipelineStepDef> = Vec::new();
    let mut i: usize = 0;
    while i < steps.len()
        invariant
            i <= steps@.len(),
            r@.len() == i,
            forall|k: int| 0 <= k < steps@.len() ==> (#[trigger] steps@[k].2) >= 0,
            forall|k: int|
                0 <= k < i ==> {
                    &&& (#[trigger] r@[k]).step_key@ == steps@[k].0.spec_as_str()
                    &&& r@[k].step_name@ == steps@[k].1@
                    &&& r@[k].step_order == steps@[k].2
                },
        decreases steps@.len() - i,
    {
        let (key, name, order) = steps[i];
        r.push(PipelineStepDef {
            step_key: String::from_str(key.as_str()),
            step_name: String::from_str(name),
            step_order: order as u32,
        });
        i = i + 1;
    }
    r
}

} // verus!
