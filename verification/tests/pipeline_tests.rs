//! The canonical ingestion pipeline definition.

use jobflow::jobs::{default_ingestion_steps, pipeline_from_steps, StepKey};

#[test]
fn canonical_pipeline_has_twelve_ordered_stages() {
    let steps = default_ingestion_steps();
    assert_eq!(steps.len(), 12);
    for (i, (_, _, order)) in steps.iter().enumerate() {
        assert_eq!(*order, (i + 1) as i32);
    }
    assert_eq!(steps[0].0, StepKey::Upload);
    assert_eq!(steps[0].1, "Uploading Document");
    assert_eq!(steps[3].0, StepKey::OcrPages);
    assert_eq!(steps[3].1, "OCR Processing");
    assert_eq!(steps[11].0, StepKey::Finalize);
    assert_eq!(steps[11].1, "Finalizing");
}

#[test]
fn step_keys_are_snake_case() {
    assert_eq!(StepKey::Upload.as_str(), "upload");
    assert_eq!(StepKey::ExtractPages.as_str(), "extract_pages");
    assert_eq!(StepKey::OcrPages.as_str(), "ocr_pages");
    assert_eq!(StepKey::GenerateEmbeddings.as_str(), "generate_embeddings");
    assert_eq!(StepKey::Finalize.as_str(), "finalize");
}

#[test]
fn pipeline_from_steps_keeps_keys_names_orders() {
    let defs = pipeline_from_steps(&default_ingestion_steps());
    assert_eq!(defs.len(), 12);
    assert_eq!(defs[0].step_key, "upload");
    assert_eq!(defs[0].step_name, "Uploading Document");
    assert_eq!(defs[0].step_order, 1);
    assert_eq!(defs[11].step_key, "finalize");
    assert_eq!(defs[11].step_order, 12);
    for (i, d) in defs.iter().enumerate() {
        assert_eq!(d.step_order as usize, i + 1);
    }
}
