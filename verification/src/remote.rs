//! The commands of the remote control client, and the OSC messages that carry them.

use vstd::prelude::*;

use crate::calibration::face::face_shape_named;
use crate::control::decode::{frames_value, message_event, side_named};
use crate::control::event::{ControlEventView, EyeEventView, FaceEventView, Side};
use crate::osc::{OscArg, OscArgView, OscMessage, OscMessageView};
use crate::text::is_absolute_path;

verus! {

#[verifier::external_type_specification]
#[verifier::external_body]
pub struct ExIoError(std::io::Error);

/// Face tracker commands.
pub enum FaceCommand {
    /// Set the input calibration range for a face shape; `lower` and `upper` are `f32` bit patterns.
    Bounds { shape: String, lower: u32, upper: u32 },
    /// Begin a neutral-hold face calibration pass over `frames` frames.
    CalibrateLower { frames: u32 },
    /// Capture the peak of a face shape over `frames` frames and set its upper bound.
    CalibrateUpper { shape: String, frames: u32 },
    /// Capture the next processed face frame to an image file.
    Capture { path: String },
}

/// Eye tracker commands.
pub enum EyeCommand {
    /// Capture the next processed frame from one eye to an image file.
    Capture { side: Side, path: String },
}

/// A remote control command.
pub enum Command {
    Face { command: FaceCommand },
    Eye { command: EyeCommand },
}

/// The name of a side on the control channel.
pub open spec fn side_name(side: Side) -> Seq<char> {
    match side {
        Side::Left => "left"@,
        Side::Right => "right"@,
    }
}

impl Side {
    /// The name of the side on the control channel.
    pub fn as_str(self) -> (r: &'static str)
        ensures
            r@ == side_name(self),
    {
        match self {
            Side::Left => "left",
            Side::Right => "right",
        }
    }
}

/// The message that sets the bounds of the shape named `shape`.
pub open spec fn bounds_message(shape: Seq<char>, lower: u32, upper: u32) -> OscMessageView {
    OscMessageView {
        addr: "/snout/face/bounds"@,
        args: seq![OscArgView::String(shape), OscArgView::Float(lower), OscArgView::Float(upper)],
    }
}

/// The message that starts a lower bound calibration over `frames` frames.
pub open spec fn calibrate_lower_message(frames: u32) -> OscMessageView {
    OscMessageView {
        addr: "/snout/face/calibrate/lower"@,
        args: seq![OscArgView::Int(frames as i32)],
    }
}

/// The message that starts an upper bound calibration of the shape named `shape`.
pub open spec fn calibrate_upper_message(shape: Seq<char>, frames: u32) -> OscMessageView {
    OscMessageView {
        addr: "/snout/face/calibrate/upper"@,
        args: seq![OscArgView::String(shape), OscArgView::Int(frames as i32)],
    }
}

/// The message that captures the next face frame to `path`.
pub open spec fn face_capture_message(path: Seq<char>) -> OscMessageView {
    OscMessageView { addr: "/snout/face/capture"@, args: seq![OscArgView::String(path)] }
}

/// The message that captures the next frame of one eye to `path`.
pub open spec fn eye_capture_message(side: Side, path: Seq<char>) -> OscMessageView {
    OscMessageView {
        addr: "/snout/eye/capture"@,
        args: seq![OscArgView::String(side_name(side)), OscArgView::String(path)],
    }
}

/// What `std::path::absolute` makes of a path that starts at the root, rendered
/// by `to_string_lossy`; no current directory enters it.
pub uninterp spec fn rooted_absolute(path: Seq<char>) -> Seq<char>;

/// Makes `path` absolute against the current directory, by `std::path::absolute`,
/// and renders it with `to_string_lossy`.
///
/// The documentation of `absolute` says that an empty path is an error, that
/// the current directory is used only for a relative path, and that an error
/// comes only of an empty path or of a current directory that cannot be read:
/// so a path that starts at the root is made absolute without fail, and what
/// comes back is a function of that path alone, named by [`rooted_absolute`]
/// (how `absolute` normalizes it is not stated). A path that comes back is
/// absolute. A relative path is made absolute against the current directory,
/// which `getcwd` gives as an absolute path: what comes back is what `absolute`
/// makes of that directory, a `/` and the path. Whether a relative path fails
/// (where the current directory cannot be read) is not stated, nor which
/// directory that is.
///
/// The contract holds on Unix targets, where a path is absolute exactly when it
/// starts with `/`, as [`is_absolute_path`] says.
#[verifier::external_body]
fn absolute_path(path: &str) -> (r: Result<String, std::io::Error>)
    ensures
        path@.len() == 0 ==> r is Err,
        is_absolute_path(path@) ==> r is Ok,
        r matches Ok(s) ==> is_absolute_path(s@),
        r matches Ok(s) ==> (is_absolute_path(path@) ==> s@ == rooted_absolute(path@)),
        r matches Ok(s) ==> (!is_absolute_path(path@) ==> exists|cwd: Seq<char>|
            is_absolute_path(cwd) && s@ == rooted_absolute(cwd + "/"@ + path@)),
{
    std::path::absolute(path).map(|p| p.to_string_lossy().into_owned())
}

fn string_arg(s: &str) -> (r: OscArg)
    ensures
        r@ == OscArgView::String(s@),
{
    OscArg::String(s.to_string())
}

impl FaceCommand {
    /// The message that asks to capture the next face frame to `path`, a path
    /// already made absolute.
    pub fn capture_message(path: String) -> (m: OscMessage)
        ensures
            m@ == face_capture_message(path@),
    {
        let args = vec![OscArg::String(path)];
        let m = OscMessage { addr: "/snout/face/capture".to_string(), args };
        assert(m@.args =~= face_capture_message(path@).args);
        m
    }

    /// The message that carries the command.
    ///
    /// A capture path is made absolute first, against the current directory
    /// when it is relative; that is the one step that can fail.
    pub fn into_message(self) -> (r: Result<OscMessage, std::io::Error>)
        ensures
            match self {
                FaceCommand::Bounds { shape, lower, upper } => r matches Ok(m) && m@
                    == bounds_message(shape@, lower, upper),
                FaceCommand::CalibrateLower { frames } => r matches Ok(m) && m@
                    == calibrate_lower_message(frames),
                FaceCommand::CalibrateUpper { shape, frames } => r matches Ok(m) && m@
                    == calibrate_upper_message(shape@, frames),
                FaceCommand::Capture { path } => (path@.len() == 0 ==> r is Err) && (is_absolute_path(path@)
                    ==> (r matches Ok(m) && m@ == face_capture_message(rooted_absolute(path@))))
                    && (!is_absolute_path(path@) ==> (r matches Ok(m) ==> exists|cwd: Seq<char>|
                        is_absolute_path(cwd) && m@ == face_capture_message(rooted_absolute(cwd + "/"@ + path@))))
                    && (r matches Ok(m)
                    ==> exists|abs: Seq<char>| is_absolute_path(abs) && m@ == face_capture_message(abs)),
            },
    {
        match self {
            FaceCommand::Bounds { shape, lower, upper } => {
                let args = vec![OscArg::String(shape), OscArg::Float(lower), OscArg::Float(upper)];
                let m = OscMessage { addr: "/snout/face/bounds".to_string(), args };
                assert(m@.args =~= bounds_message(shape@, lower, upper).args);
                Ok(m)
            },
            FaceCommand::CalibrateLower { frames } => {
                let args = vec![OscArg::Int(frames as i32)];
                let m = OscMessage { addr: "/snout/face/calibrate/lower".to_string(), args };
                assert(m@.args =~= calibrate_lower_message(frames).args);
                Ok(m)
            },
            FaceCommand::CalibrateUpper { shape, frames } => {
                let args = vec![OscArg::String(shape), OscArg::Int(frames as i32)];
                let m = OscMessage { addr: "/snout/face/calibrate/upper".to_string(), args };
                assert(m@.args =~= calibrate_upper_message(shape@, frames).args);
                Ok(m)
            },
            FaceCommand::Capture { path } => {
                let abs = absolute_path(path.as_str())?;
                Ok(FaceCommand::capture_message(abs))
            },
        }
    }
}

impl EyeCommand {
    /// The message that asks to capture the next frame of the eye on `side` to
    /// `path`, a path already made absolute.
    pub fn capture_message(side: Side, path: String) -> (m: OscMessage)
        ensures
            m@ == eye_capture_message(side, path@),
    {
        let args = vec![string_arg(side.as_str()), OscArg::String(path)];
        let m = OscMessage { addr: "/snout/eye/capture".to_string(), args };
        assert(m@.args =~= eye_capture_message(side, path@).args);
        m
    }

    /// The message that carries the command; the capture path is made absolute
    /// first, which fails for an empty path and succeeds for a path that
    /// starts at the root.
    pub fn into_message(self) -> (r: Result<OscMessage, std::io::Error>)
        ensures
            match self {
                EyeCommand::Capture { side, path } => (path@.len() == 0 ==> r is Err) && (is_absolute_path(path@)
                    ==> (r matches Ok(m) && m@ == eye_capture_message(side, rooted_absolute(path@))))
                    && (!is_absolute_path(path@) ==> (r matches Ok(m) ==> exists|cwd: Seq<char>|
                        is_absolute_path(cwd) && m@ == eye_capture_message(side, rooted_absolute(cwd + "/"@ + path@))))
                    && (r matches Ok(m)
                    ==> exists|abs: Seq<char>| is_absolute_path(abs) && m@ == eye_capture_message(side, abs)),
            },
    {
        match self {
            EyeCommand::Capture { side, path } => {
                let abs = absolute_path(path.as_str())?;
                Ok(EyeCommand::capture_message(side, abs))
            },
        }
    }
}

impl Command {
    /// The message that carries the command.
    pub fn into_message(self) -> (r: Result<OscMessage, std::io::Error>)
        ensures
            match self {
                Command::Face { command } => match command {
                    FaceCommand::Bounds { shape, lower, upper } => r matches Ok(m) && m@
                        == bounds_message(shape@, lower, upper),
                    FaceCommand::CalibrateLower { frames } => r matches Ok(m) && m@
                        == calibrate_lower_message(frames),
                    FaceCommand::CalibrateUpper { shape, frames } => r matches Ok(m) && m@
                        == calibrate_upper_message(shape@, frames),
                    FaceCommand::Capture { path } => (path@.len() == 0 ==> r is Err) && (is_absolute_path(path@)
                        ==> (r matches Ok(m) && m@ == face_capture_message(rooted_absolute(path@))))
                        && (!is_absolute_path(path@) ==> (r matches Ok(m) ==> exists|cwd: Seq<char>|
                            is_absolute_path(cwd) && m@ == face_capture_message(rooted_absolute(cwd + "/"@ + path@))))
                        && (r matches Ok(m)
                        ==> exists|abs: Seq<char>| is_absolute_path(abs) && m@ == face_capture_message(abs)),
                },
                Command::Eye { command } => match command {
                    EyeCommand::Capture { side, path } => (path@.len() == 0 ==> r is Err) && (is_absolute_path(path@)
                        ==> (r matches Ok(m) && m@ == eye_capture_message(side, rooted_absolute(path@))))
                        && (!is_absolute_path(path@) ==> (r matches Ok(m) ==> exists|cwd: Seq<char>|
                            is_absolute_path(cwd) && m@ == eye_capture_message(side, rooted_absolute(cwd + "/"@ + path@))))
                        && (r matches Ok(m)
                        ==> exists|abs: Seq<char>| is_absolute_path(abs) && m@ == eye_capture_message(side, abs)),
                },
            },
    {
        match self {
            Command::Face { command } => command.into_message(),
            Command::Eye { command } => command.into_message(),
        }
    }
}

proof fn lemma_addresses_distinct()
    ensures
        "/snout/face/calibrate/lower"@ != "/snout/face/bounds"@,
        "/snout/face/calibrate/upper"@ != "/snout/face/bounds"@,
        "/snout/face/calibrate/upper"@ != "/snout/face/calibrate/lower"@,
        "/snout/face/capture"@ != "/snout/face/bounds"@,
        "/snout/face/capture"@ != "/snout/face/calibrate/lower"@,
        "/snout/face/capture"@ != "/snout/face/calibrate/upper"@,
        "/snout/eye/capture"@ != "/snout/face/bounds"@,
        "/snout/eye/capture"@ != "/snout/face/calibrate/lower"@,
        "/snout/eye/capture"@ != "/snout/face/calibrate/upper"@,
        "/snout/eye/capture"@ != "/snout/face/capture"@,
        "right"@ != "left"@,
{
    reveal_strlit("/snout/face/bounds");
    reveal_strlit("/snout/face/calibrate/lower");
    reveal_strlit("/snout/face/calibrate/upper");
    reveal_strlit("/snout/face/capture");
    reveal_strlit("/snout/eye/capture");
    reveal_strlit("left");
    reveal_strlit("right");
    assert("/snout/face/calibrate/lower"@.len() != "/snout/face/bounds"@.len());
    assert("/snout/face/calibrate/upper"@.len() != "/snout/face/bounds"@.len());
    assert("/snout/face/calibrate/upper"@[22] != "/snout/face/calibrate/lower"@[22]);
    assert("/snout/face/capture"@.len() != "/snout/face/bounds"@.len());
    assert("/snout/face/capture"@.len() != "/snout/face/calibrate/lower"@.len());
    assert("/snout/face/capture"@.len() != "/snout/face/calibrate/upper"@.len());
    assert("/snout/eye/capture"@[7] != "/snout/face/bounds"@[7]);
    assert("/snout/eye/capture"@.len() != "/snout/face/calibrate/lower"@.len());
    assert("/snout/eye/capture"@.len() != "/snout/face/calibrate/upper"@.len());
    assert("/snout/eye/capture"@.len() != "/snout/face/capture"@.len());
    assert("right"@.len() != "left"@.len());
}

/// A bounds command sent by the remote client is decoded into the bounds it names,
/// provided its shape name is one the tracker knows.
pub proof fn lemma_bounds_command_decodes(shape: Seq<char>, lower: u32, upper: u32)
    ensures
        message_event(bounds_message(shape, lower, upper)) == match face_shape_named(shape) {
            Some(s) => Some(
                ControlEventView::Face { event: FaceEventView::SetBounds { shape: s, lower, upper } },
            ),
            None => None,
        },
{
}

/// A lower bound calibration command is decoded into a calibration over the same
/// number of frames, for any frame count from 1 up to `i32::MAX`; other counts
/// become one frame.
pub proof fn lemma_calibrate_lower_command_decodes(frames: u32)
    ensures
        message_event(calibrate_lower_message(frames)) == Some(
            ControlEventView::Face {
                event: FaceEventView::CalibrateLower { frames: frames_value(frames as i32) },
            },
        ),
        1 <= frames <= i32::MAX ==> frames_value(frames as i32) == frames,
{
    lemma_addresses_distinct();
}

/// An upper bound calibration command is decoded into a calibration of the named
/// shape over the same number of frames (from 1 up to `i32::MAX`).
pub proof fn lemma_calibrate_upper_command_decodes(shape: Seq<char>, frames: u32)
    ensures
        message_event(calibrate_upper_message(shape, frames)) == match face_shape_named(shape) {
            Some(s) => Some(
                ControlEventView::Face {
                    event: FaceEventView::CalibrateUpper { shape: s, frames: frames_value(frames as i32) },
                },
            ),
            None => None,
        },
        1 <= frames <= i32::MAX ==> frames_value(frames as i32) == frames,
{
    lemma_addresses_distinct();
}

/// A face capture command with an absolute path is decoded into a capture to that path.
pub proof fn lemma_face_capture_command_decodes(path: Seq<char>)
    requires
        is_absolute_path(path),
    ensures
        message_event(face_capture_message(path)) == Some(
            ControlEventView::Face { event: FaceEventView::Capture { path } },
        ),
{
    lemma_addresses_distinct();
}

/// An eye capture command with an absolute path is decoded into a capture of the
/// same eye to that path.
pub proof fn lemma_eye_capture_command_decodes(side: Side, path: Seq<char>)
    requires
        is_absolute_path(path),
    ensures
        message_event(eye_capture_message(side, path)) == Some(
            ControlEventView::Eye { event: EyeEventView::Capture { side, path } },
        ),
{
    lemma_addresses_distinct();
}

} // verus!
