//! Error codes reported across the C interface, and the per-thread record of
//! the last error.

use vstd::prelude::*;
use vstd::string::StringExecFns;

use crate::capture::error::{CameraError, PreprocessError};
use crate::config::ConfigError;
use crate::output::TransportError;
use crate::pipeline::PipelineError;
use crate::track::TrackerError;

verus! {

/// Represents an error that occurred during a Snout operation.
#[derive(Copy, Clone, Debug, PartialEq, Eq, Structural)]
pub enum SnoutError {
    /// The operation completed successfully.
    Success,
    /// A null pointer was passed to a function that requires a valid pointer.
    NullPointer,
    /// The input string was not valid UTF-8.
    InvalidUtf8,
    /// The camera failed to open due to an invalid format.
    CameraInvalidFormat,
    /// An invalid frame was received from the camera.
    CameraInvalidFrame,
    /// No usable camera sources were configured.
    CameraInvalidSources,
    /// An internal error occurred during camera operations.
    CameraInternal,
    /// An internal error occurred during preprocessing.
    PreprocessInternal,
    /// The pipeline failed to load.
    PipelineLoad,
    /// The pipeline failed during inference.
    PipelineInference,
    /// The tracker failed to load the model.
    TrackerModel,
    /// The tracker failed to open the camera.
    TrackerOpen,
    /// An internal error occurred during tracking.
    TrackerInternal,
    /// Failed to bind the transport socket.
    TransportBind,
    /// Failed to resolve the transport destination address.
    TransportResolve,
    /// The config file could not be found.
    ConfigFileNotFound,
    /// The config file could not be parsed.
    ConfigInvalidConfig,
}

impl From<TransportError> for SnoutError {
    fn from(error: TransportError) -> (r: SnoutError) {
        match error {
            TransportError::Bind => SnoutError::TransportBind,
            TransportError::Resolve => SnoutError::TransportResolve,
        }
    }
}

impl vstd::std_specs::convert::FromSpecImpl<TransportError> for SnoutError {
    open spec fn obeys_from_spec() -> bool {
        true
    }

    open spec fn from_spec(error: TransportError) -> SnoutError {
        match error {
            TransportError::Bind => SnoutError::TransportBind,
            TransportError::Resolve => SnoutError::TransportResolve,
        }
    }
}

impl From<TrackerError> for SnoutError {
    fn from(error: TrackerError) -> (r: SnoutError) {
        match error {
            TrackerError::Model(_) => SnoutError::TrackerModel,
            TrackerError::Open(_) => SnoutError::TrackerOpen,
            TrackerError::Internal(_) => SnoutError::TrackerInternal,
        }
    }
}

impl vstd::std_specs::convert::FromSpecImpl<TrackerError> for SnoutError {
    open spec fn obeys_from_spec() -> bool {
        true
    }

    open spec fn from_spec(error: TrackerError) -> SnoutError {
        match error {
            TrackerError::Model(_) => SnoutError::TrackerModel,
            TrackerError::Open(_) => SnoutError::TrackerOpen,
            TrackerError::Internal(_) => SnoutError::TrackerInternal,
        }
    }
}

impl From<CameraError> for SnoutError {
    fn from(error: CameraError) -> (r: SnoutError) {
        match error {
            CameraError::InvalidFormat(_) => SnoutError::CameraInvalidFormat,
            CameraError::InvalidFrame(_) => SnoutError::CameraInvalidFrame,
            CameraError::InvalidSources => SnoutError::CameraInvalidSources,
            CameraError::Internal(_) => SnoutError::CameraInternal,
        }
    }
}

impl vstd::std_specs::convert::FromSpecImpl<CameraError> for SnoutError {
    open spec fn obeys_from_spec() -> bool {
        true
    }

    open spec fn from_spec(error: CameraError) -> SnoutError {
        match error {
            CameraError::InvalidFormat(_) => SnoutError::CameraInvalidFormat,
            CameraError::InvalidFrame(_) => SnoutError::CameraInvalidFrame,
            CameraError::InvalidSources => SnoutError::CameraInvalidSources,
            CameraError::Internal(_) => SnoutError::CameraInternal,
        }
    }
}

impl From<PreprocessError> for SnoutError {
    fn from(error: PreprocessError) -> (r: SnoutError) {
        match error {
            PreprocessError::Internal(_) => SnoutError::PreprocessInternal,
        }
    }
}

impl vstd::std_specs::convert::FromSpecImpl<PreprocessError> for SnoutError {
    open spec fn obeys_from_spec() -> bool {
        true
    }

    open spec fn from_spec(error: PreprocessError) -> SnoutError {
        match error {
            PreprocessError::Internal(_) => SnoutError::PreprocessInternal,
        }
    }
}

impl From<PipelineError> for SnoutError {
    fn from(error: PipelineError) -> (r: SnoutError) {
        match error {
            PipelineError::Load(_) => SnoutError::PipelineLoad,
            PipelineError::Inference(_) => SnoutError::PipelineInference,
        }
    }
}

impl vstd::std_specs::convert::FromSpecImpl<PipelineError> for SnoutError {
    open spec fn obeys_from_spec() -> bool {
        true
    }

    open spec fn from_spec(error: PipelineError) -> SnoutError {
        match error {
            PipelineError::Load(_) => SnoutError::PipelineLoad,
            PipelineError::Inference(_) => SnoutError::PipelineInference,
        }
    }
}

impl From<ConfigError> for SnoutError {
    fn from(error: ConfigError) -> (r: SnoutError) {
        match error {
            ConfigError::FileNotFound => SnoutError::ConfigFileNotFound,
            ConfigError::InvalidConfig(_) => SnoutError::ConfigInvalidConfig,
        }
    }
}

impl vstd::std_specs::convert::FromSpecImpl<ConfigError> for SnoutError {
    open spec fn obeys_from_spec() -> bool {
        true
    }

    open spec fn from_spec(error: ConfigError) -> SnoutError {
        match error {
            ConfigError::FileNotFound => SnoutError::ConfigFileNotFound,
            ConfigError::InvalidConfig(_) => SnoutError::ConfigInvalidConfig,
        }
    }
}

/// The last error of a thread: its code and its message.
pub struct LastError {
    pub code: SnoutError,
    pub message: String,
}

impl LastError {
    /// The record before any error: the code is `Ok` and the message is empty.
    pub fn new() -> (r: LastError)
        ensures
            r.code == SnoutError::Success,
            r.message@ == Seq::<char>::empty(),
    {
        LastError { code: SnoutError::Success, message: String::new() }
    }

    /// Records that a required argument was null.
    pub fn set_null_pointer(&mut self)
        ensures
            final(self).code == SnoutError::NullPointer,
            final(self).message@ == "a required argument is null"@,
    {
        self.code = SnoutError::NullPointer;
        self.message = String::from_str("a required argument is null");
    }

    /// Records that an input string was not valid UTF-8, with the decoder's message.
    pub fn set_utf8(&mut self, message: String)
        ensures
            final(self).code == SnoutError::InvalidUtf8,
            final(self).message@ == message@,
    {
        self.code = SnoutError::InvalidUtf8;
        self.message = message;
    }

    /// Records an error by its code and its message.
    pub fn set(&mut self, code: SnoutError, message: String)
        ensures
            final(self).code == code,
            final(self).message@ == message@,
    {
        self.message = message;
        self.code = code;
    }

    /// Clears the record: the code is `Ok` and the message is empty.
    pub fn clear(&mut self)
        ensures
            final(self).code == SnoutError::Success,
            final(self).message@ == Seq::<char>::empty(),
    {
        self.code = SnoutError::Success;
        self.message = String::new();
    }
}

/// The number of bytes of a text of `len` bytes that are copied into a caller's
/// buffer of `max_len` bytes, which keeps room for the terminating NUL; with no
/// buffer (null, or `max_len` 0) it is the full length of the text.
pub open spec fn copy_len_spec(len: nat, buffer_is_null: bool, max_len: nat) -> nat {
    if buffer_is_null || max_len == 0 {
        len
    } else if len <= max_len - 1 {
        len
    } else {
        (max_len - 1) as nat
    }
}

/// The length reported by a text query: see [`copy_len_spec`].
pub fn copy_len(len: usize, buffer_is_null: bool, max_len: usize) -> (r: usize)
    ensures
        r == copy_len_spec(len as nat, buffer_is_null, max_len as nat),
{
    if buffer_is_null || max_len == 0 {
        return len;
    }
    if len < max_len - 1 {
        len
    } else {
        max_len - 1
    }
}

/// The bytes written into a caller's buffer of `max_len` bytes: as much of the
/// text as fits, then a NUL.
pub fn terminated_prefix(text: &[u8], max_len: usize) -> (r: Vec<u8>)
    requires
        max_len > 0,
    ensures
        r@ == text@.subrange(0, copy_len_spec(text@.len(), false, max_len as nat) as int).push(0u8),
{
    let n = copy_len(text.len(), false, max_len);
    let mut r: Vec<u8> = Vec::new();
    let mut i: usize = 0;
    while i < n
        invariant
            n <= text@.len(),
            i <= n,
            n == copy_len_spec(text@.len(), false, max_len as nat),
            r@ == text@.subrange(0, i as int),
        decreases n - i,
    {
        r.push(text[i]);
        i = i + 1;
        assert(r@ =~= text@.subrange(0, i as int));
    }
    r.push(0u8);
    r
}

} // verus!
