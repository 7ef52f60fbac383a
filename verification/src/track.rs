//! Errors of the trackers, and how the errors of their stages map onto them.

pub mod eye;

use vstd::prelude::*;
use vstd::string::StringExecFns;

use crate::capture::error::{CameraError, PreprocessError};
use crate::pipeline::PipelineError;

verus! {

/// Errors of the face and eye trackers.
#[derive(Clone, Debug)]
pub enum TrackerError {
    /// The model failed to load.
    Model(String),
    /// The camera failed to open.
    Open(String),
    /// Any other failure while tracking.
    Internal(String),
}

/// The mathematical value of a [`TrackerError`].
pub enum TrackerErrorView {
    Model(Seq<char>),
    Open(Seq<char>),
    Internal(Seq<char>),
}

impl View for TrackerError {
    type V = TrackerErrorView;

    open spec fn view(&self) -> TrackerErrorView {
        match self {
            TrackerError::Model(s) => TrackerErrorView::Model(s@),
            TrackerError::Open(s) => TrackerErrorView::Open(s@),
            TrackerError::Internal(s) => TrackerErrorView::Internal(s@),
        }
    }
}

/// The message of [`CameraError::InvalidSources`].
pub open spec fn invalid_sources_message() -> Seq<char> {
    "no usable camera sources were configured"@
}

/// The message of a preprocessing error: `Internal error: ` and its detail.
pub open spec fn preprocess_message(e: PreprocessError) -> Seq<char> {
    match e {
        PreprocessError::Internal(s) => "Internal error: "@ + s@,
    }
}

/// The tracker error that a camera error becomes: a camera that cannot be set
/// up from its sources is a failure to open, anything else is internal.
pub open spec fn camera_tracker_error(e: CameraError) -> TrackerErrorView {
    match e {
        CameraError::InvalidFormat(s) => TrackerErrorView::Internal(s@),
        CameraError::InvalidFrame(s) => TrackerErrorView::Internal(s@),
        CameraError::InvalidSources => TrackerErrorView::Open(invalid_sources_message()),
        CameraError::Internal(s) => TrackerErrorView::Internal(s@),
    }
}

/// The tracker error that a pipeline error becomes.
pub open spec fn pipeline_tracker_error(e: PipelineError) -> TrackerErrorView {
    match e {
        PipelineError::Load(s) => TrackerErrorView::Model(s@),
        PipelineError::Inference(s) => TrackerErrorView::Internal(s@),
    }
}

impl TrackerError {
    /// The tracker error for a camera error.
    pub fn from_camera(error: CameraError) -> (r: TrackerError)
        ensures
            r@ == camera_tracker_error(error),
    {
        match error {
            CameraError::InvalidFormat(e) => TrackerError::Internal(e),
            CameraError::InvalidFrame(e) => TrackerError::Internal(e),
            CameraError::InvalidSources => TrackerError::Open(
                String::from_str("no usable camera sources were configured"),
            ),
            CameraError::Internal(e) => TrackerError::Internal(e),
        }
    }

    /// The tracker error for a preprocessing error: an internal error with the
    /// preprocessing error's message.
    pub fn from_preprocess(error: PreprocessError) -> (r: TrackerError)
        ensures
            r@ == TrackerErrorView::Internal(preprocess_message(error)),
    {
        match error {
            PreprocessError::Internal(e) => {
                let mut message = String::from_str("Internal error: ");
                message.append(e.as_str());
                TrackerError::Internal(message)
            },
        }
    }

    /// The tracker error for a pipeline error.
    pub fn from_pipeline(error: PipelineError) -> (r: TrackerError)
        ensures
            r@ == pipeline_tracker_error(error),
    {
        match error {
            PipelineError::Load(e) => TrackerError::Model(e),
            PipelineError::Inference(e) => TrackerError::Internal(e),
        }
    }
}

/// Converts by [`TrackerError::from_camera`], whose contract states the result.
impl From<CameraError> for TrackerError {
    fn from(error: CameraError) -> (r: TrackerError) {
        TrackerError::from_camera(error)
    }
}

impl vstd::std_specs::convert::FromSpecImpl<CameraError> for TrackerError {
    open spec fn obeys_from_spec() -> bool {
        false
    }

    open spec fn from_spec(error: CameraError) -> TrackerError {
        arbitrary()
    }
}

/// Converts by [`TrackerError::from_preprocess`], whose contract states the result.
impl From<PreprocessError> for TrackerError {
    fn from(error: PreprocessError) -> (r: TrackerError) {
        TrackerError::from_preprocess(error)
    }
}

impl vstd::std_specs::convert::FromSpecImpl<PreprocessError> for TrackerError {
    open spec fn obeys_from_spec() -> bool {
        false
    }

    open spec fn from_spec(error: PreprocessError) -> TrackerError {
        arbitrary()
    }
}

/// Converts by [`TrackerError::from_pipeline`], whose contract states the result.
impl From<PipelineError> for TrackerError {
    fn from(error: PipelineError) -> (r: TrackerError) {
        TrackerError::from_pipeline(error)
    }
}

impl vstd::std_specs::convert::FromSpecImpl<PipelineError> for TrackerError {
    open spec fn obeys_from_spec() -> bool {
        false
    }

    open spec fn from_spec(error: PipelineError) -> TrackerError {
        arbitrary()
    }
}

} // verus!
