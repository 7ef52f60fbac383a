use snout::capture::error::{CameraError, PreprocessError};
use snout::config::ConfigError;
use snout::error::{copy_len, terminated_prefix, LastError, SnoutError};
use snout::output::TransportError;
use snout::pipeline::PipelineError;
use snout::track::TrackerError;

#[test]
fn error_codes_of_each_layer() {
    assert_eq!(SnoutError::from(TransportError::Bind), SnoutError::TransportBind);
    assert_eq!(SnoutError::from(TransportError::Resolve), SnoutError::TransportResolve);
    assert_eq!(SnoutError::from(TrackerError::Model("m".into())), SnoutError::TrackerModel);
    assert_eq!(SnoutError::from(TrackerError::Open("o".into())), SnoutError::TrackerOpen);
    assert_eq!(SnoutError::from(TrackerError::Internal("i".into())), SnoutError::TrackerInternal);
    assert_eq!(SnoutError::from(CameraError::InvalidFormat("f".into())), SnoutError::CameraInvalidFormat);
    assert_eq!(SnoutError::from(CameraError::InvalidFrame("f".into())), SnoutError::CameraInvalidFrame);
    assert_eq!(SnoutError::from(CameraError::InvalidSources), SnoutError::CameraInvalidSources);
    assert_eq!(SnoutError::from(CameraError::Internal("x".into())), SnoutError::CameraInternal);
    assert_eq!(SnoutError::from(PreprocessError::Internal("x".into())), SnoutError::PreprocessInternal);
    assert_eq!(SnoutError::from(PipelineError::Load("x".into())), SnoutError::PipelineLoad);
    assert_eq!(SnoutError::from(PipelineError::Inference("x".into())), SnoutError::PipelineInference);
    assert_eq!(SnoutError::from(ConfigError::FileNotFound), SnoutError::ConfigFileNotFound);
    assert_eq!(SnoutError::from(ConfigError::InvalidConfig("x".into())), SnoutError::ConfigInvalidConfig);
}

#[test]
fn tracker_errors_from_stage_errors() {
    assert!(matches!(TrackerError::from(CameraError::InvalidFrame("bad".into())), TrackerError::Internal(m) if m == "bad"));
    assert!(matches!(TrackerError::from(CameraError::InvalidFormat("fmt".into())), TrackerError::Internal(m) if m == "fmt"));
    assert!(matches!(TrackerError::from(CameraError::Internal("int".into())), TrackerError::Internal(m) if m == "int"));
    assert!(matches!(TrackerError::from(CameraError::InvalidSources), TrackerError::Open(m) if m == "no usable camera sources were configured"));
    assert!(matches!(TrackerError::from(PreprocessError::Internal("crop".into())), TrackerError::Internal(m) if m == "Internal error: crop"));
    assert!(matches!(TrackerError::from(PipelineError::Load("onnx".into())), TrackerError::Model(m) if m == "onnx"));
    assert!(matches!(TrackerError::from(PipelineError::Inference("run".into())), TrackerError::Internal(m) if m == "run"));
}

#[test]
fn last_error_record() {
    let mut last = LastError::new();
    assert_eq!(last.code, SnoutError::Success);
    assert_eq!(last.message, "");
    last.set_null_pointer();
    assert_eq!(last.code, SnoutError::NullPointer);
    assert_eq!(last.message, "a required argument is null");
    last.set_utf8("invalid utf-8 sequence".to_string());
    assert_eq!(last.code, SnoutError::InvalidUtf8);
    last.set(SnoutError::TrackerOpen, "camera".to_string());
    assert_eq!((last.code, last.message.as_str()), (SnoutError::TrackerOpen, "camera"));
    last.clear();
    assert_eq!((last.code, last.message.as_str()), (SnoutError::Success, ""));
}

#[test]
fn message_copy_lengths() {
    assert_eq!(copy_len(10, true, 4), 10);
    assert_eq!(copy_len(10, false, 0), 10);
    assert_eq!(copy_len(10, false, 4), 3);
    assert_eq!(copy_len(3, false, 4), 3);
    assert_eq!(copy_len(3, false, 100), 3);
    assert_eq!(copy_len(0, false, 1), 0);
}

#[test]
fn terminated_prefixes() {
    assert_eq!(terminated_prefix(b"hello", 3), b"he\0".to_vec());
    assert_eq!(terminated_prefix(b"hi", 10), b"hi\0".to_vec());
    assert_eq!(terminated_prefix(b"hi", 1), b"\0".to_vec());
    assert_eq!(terminated_prefix(b"", 5), b"\0".to_vec());
}
