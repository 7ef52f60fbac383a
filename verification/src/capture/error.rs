use vstd::prelude::*;

verus! {

/// Errors of the camera layer.
#[derive(Clone, Debug)]
pub enum CameraError {
    /// The camera could not be opened with the requested format.
    InvalidFormat(String),
    /// An invalid frame was received; the camera may be gone or the error may be transient.
    InvalidFrame(String),
    /// No usable camera sources were configured.
    InvalidSources,
    /// Any other failure of the camera layer.
    Internal(String),
}

/// Errors of frame preprocessing.
#[derive(Clone, Debug)]
pub enum PreprocessError {
    Internal(String),
}

} // verus!
