//! The recognition pipeline: its control state, the decisions of a run, the
//! framing of recognizer input and output, and model checks.
use vstd::prelude::*;

pub mod control;
pub mod model_check;
pub mod recognize;
pub mod run;
pub mod vad_model;

pub use control::{PipelineControl, StartRejected};
pub use model_check::{check_model, panic_msg, validate_model};
pub use recognize::Transcript;
pub use run::{PipelineRun, RunAction, RunEvent};

verus! {

/// Recognized text, sent to the client as it arrives.
#[derive(Debug, Clone)]
pub struct TranscriptionEvent {
    pub text: String,
    pub is_final: bool,
}

/// A failure of the pipeline, reported to the client.
#[derive(Debug, Clone)]
pub struct PipelineError {
    pub code: String,
    pub message: String,
}

/// A change of the pipeline's state, reported to the client.
#[derive(Debug, Clone)]
pub struct PipelineStatus {
    pub state: String,
}

/// The state a pipeline handle reports.
#[derive(Clone, Debug, PartialEq)]
pub enum PipelineState {
    Idle,
    Running,
    Error(String),
}

} // verus!
