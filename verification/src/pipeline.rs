//! Preparation of model inputs and interpretation of model outputs.

pub mod compositor;
pub mod face;

pub use compositor::{CompositeImage, EyeCompositor};
pub use face::FacePipeline;

use vstd::prelude::*;

verus! {

/// Errors of the inference pipelines.
#[derive(Clone, Debug)]
pub enum PipelineError {
    /// The model failed to load.
    Load(String),
    /// The model failed while running.
    Inference(String),
}

} // verus!
