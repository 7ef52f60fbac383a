//! Camera frames and the byte-level work done on them before inference.

pub mod error;
pub mod frame;
pub mod mjpeg;
pub mod pixel;
pub mod source;
pub mod stereo;

pub use error::{CameraError, PreprocessError};
pub use frame::Frame;
