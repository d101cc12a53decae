use vstd::prelude::*;
use crate::error::PipelineError;
use crate::error::PipelineErrorView;

verus! {

/// One of the three outside steps that turn rows into a batch.
#[derive(Debug, Clone, Copy, PartialEq, Eq, Structural)]
pub enum Stage {
    /// Infer the field descriptors from the rows.
    InferSchema,
    /// Build one column array per field from the rows.
    BuildArrays,
    /// Put fields and arrays together as one batch.
    ConstructBatch,
}

/// Mathematical model of what the assembler does next.
pub enum StepView {
    NoBatch,
    Run(Stage),
    Finished,
    Failed(PipelineErrorView),
}

/// What the assembler does next.
#[derive(Debug, PartialEq)]
pub enum Step {
    /// There are no rows: hand back no batch, and run nothing.
    NoBatch,
    /// Run this stage, then report how it went.
    Run(Stage),
    /// The batch stands.
    Finished,
    /// A stage failed: hand back this failure, and run nothing more.
    Failed(PipelineError),
}

impl View for Step {
    type V = StepView;

    open spec fn view(&self) -> StepView {
        match *self {
            Step::NoBatch => StepView::NoBatch,
            Step::Run(stage) => StepView::Run(stage),
            Step::Finished => StepView::Finished,
            Step::Failed(e) => StepView::Failed(e@),
        }
    }
}

/// The failure of a stage, labelled with the stage.
pub open spec fn stage_failure(stage: Stage, complaint: Seq<char>) -> PipelineErrorView {
    match stage {
        Stage::InferSchema => PipelineErrorView::SchemaInferenceError(complaint),
        Stage::BuildArrays => PipelineErrorView::ArrayConversionError(complaint),
        Stage::ConstructBatch => PipelineErrorView::BatchConstructionError(complaint),
    }
}

/// The first step for `row_count` rows: inference never runs on no rows.
pub open spec fn opening(row_count: nat) -> StepView {
    if row_count == 0 {
        StepView::NoBatch
    } else {
        StepView::Run(Stage::InferSchema)
    }
}

/// The step after `done` ran: on a complaint the labelled failure, with
/// nothing retried; else the stage that follows, or the end after the last.
pub open spec fn following(done: Stage, complaint: Option<Seq<char>>) -> StepView {
    match complaint {
        Some(text) => StepView::Failed(stage_failure(done, text)),
        None => match done {
            Stage::InferSchema => StepView::Run(Stage::BuildArrays),
            Stage::BuildArrays => StepView::Run(Stage::ConstructBatch),
            Stage::ConstructBatch => StepView::Finished,
        },
    }
}

/// The model of a complaint that may be there.
pub open spec fn complaint_view(complaint: Option<String>) -> Option<Seq<char>> {
    match complaint {
        Some(text) => Some(text@),
        None => None,
    }
}

/// Wraps the complaint of a stage into the failure that names the stage.
pub fn stage_error(stage: Stage, complaint: String) -> (e: PipelineError)
    ensures
        e@ == stage_failure(stage, complaint@),
{
    match stage {
        Stage::InferSchema => PipelineError::SchemaInferenceError(complaint),
        Stage::BuildArrays => PipelineError::ArrayConversionError(complaint),
        Stage::ConstructBatch => PipelineError::BatchConstructionError(complaint),
    }
}

/// Decides how assembly starts, given how many rows there are.
pub fn first_step(row_count: usize) -> (step: Step)
    ensures
        step@ == opening(row_count as nat),
{
    if row_count == 0 {
        Step::NoBatch
    } else {
        Step::Run(Stage::InferSchema)
    }
}

/// Decides how assembly goes on after `done` ran; `complaint` is what the
/// stage reported where it failed.
pub fn next_step(done: Stage, complaint: Option<String>) -> (step: Step)
    ensures
        step@ == following(done, complaint_view(complaint)),
{
    match complaint {
        Some(text) => Step::Failed(stage_error(done, text)),
        None => match done {
            Stage::InferSchema => Step::Run(Stage::BuildArrays),
            Stage::BuildArrays => Step::Run(Stage::ConstructBatch),
            Stage::ConstructBatch => Step::Finished,
        },
    }
}

} // verus!
