use surrealengine_accelerator::assemble::first_step;
use surrealengine_accelerator::assemble::next_step;
use surrealengine_accelerator::assemble::stage_error;
use surrealengine_accelerator::assemble::Stage;
use surrealengine_accelerator::assemble::Step;
use surrealengine_accelerator::error::PipelineError;

#[test]
fn no_rows_give_no_batch() {
    assert_eq!(first_step(0), Step::NoBatch);
}

#[test]
fn rows_start_with_schema_inference() {
    assert_eq!(first_step(1), Step::Run(Stage::InferSchema));
    assert_eq!(first_step(usize::MAX), Step::Run(Stage::InferSchema));
}

#[test]
fn stages_follow_in_order() {
    assert_eq!(next_step(Stage::InferSchema, None), Step::Run(Stage::BuildArrays));
    assert_eq!(next_step(Stage::BuildArrays, None), Step::Run(Stage::ConstructBatch));
    assert_eq!(next_step(Stage::ConstructBatch, None), Step::Finished);
}

#[test]
fn a_failed_stage_ends_assembly_with_its_label() {
    assert_eq!(
        next_step(Stage::InferSchema, Some("a".to_string())),
        Step::Failed(PipelineError::SchemaInferenceError("a".to_string()))
    );
    assert_eq!(
        next_step(Stage::BuildArrays, Some("b".to_string())),
        Step::Failed(PipelineError::ArrayConversionError("b".to_string()))
    );
    assert_eq!(
        next_step(Stage::ConstructBatch, Some("c".to_string())),
        Step::Failed(PipelineError::BatchConstructionError("c".to_string()))
    );
}

#[test]
fn stage_error_labels_the_complaint() {
    assert_eq!(
        stage_error(Stage::InferSchema, "x".to_string()),
        PipelineError::SchemaInferenceError("x".to_string())
    );
    assert_eq!(
        stage_error(Stage::BuildArrays, String::new()),
        PipelineError::ArrayConversionError(String::new())
    );
    assert_eq!(
        stage_error(Stage::ConstructBatch, "x".to_string()).message(),
        "RecordBatch creation error: x"
    );
}
