use snout::calibration::capture::{CaptureWindow, WindowStep};
use snout::control::{decode_message, ControlEvent, FaceEvent};
use snout::osc::{OscArg, OscMessage};
use snout::cancel::{Cancel, Cancellation};
use snout::cli::{throttle_delay, TrackCommand, DEFAULT_INTERVAL_MS};

#[test]
fn cancel_flag() {
    let c = Cancel::new();
    assert!(!c.is_cancelled());
    c.cancel();
    assert!(c.is_cancelled());
}

#[test]
fn throttle_follows_the_interval() {
    assert_eq!(throttle_delay(None), Some(DEFAULT_INTERVAL_MS));
    assert_eq!(throttle_delay(Some(0)), None);
    assert_eq!(throttle_delay(Some(25)), Some(25));
}

#[test]
fn track_command_keeps_its_settings() {
    let cmd = TrackCommand::new("config", true);
    assert_eq!(*cmd.config(), "config");
    assert!(cmd.eye_debug());
}

#[test]
fn calibration_pass_collects_exactly_its_frames() {
    let mut window = CaptureWindow::new();
    assert!(!window.is_active());
    assert_eq!(window.step(), WindowStep::Skip);

    window.start(3);
    assert!(window.is_active());
    assert_eq!(window.step(), WindowStep::Collect);
    assert_eq!(window.step(), WindowStep::Collect);
    assert_eq!(window.step(), WindowStep::Finish);
    assert!(!window.is_active());
    assert_eq!(window.step(), WindowStep::Skip);

    // A pass over one frame completes on it; a new start abandons a running pass.
    window.start(5);
    window.step();
    window.start(1);
    assert_eq!(window.step(), WindowStep::Finish);
    window.start(0);
    assert_eq!(window.step(), WindowStep::Skip);
}

#[test]
fn a_requested_calibration_pass_completes() {
    use_requested_frames(0, 1);
    use_requested_frames(-3, 1);
    use_requested_frames(4, 4);
}

fn use_requested_frames(requested: i32, expected: u32) {
    let message = OscMessage {
        addr: "/snout/face/calibrate/lower".to_string(),
        args: vec![OscArg::Int(requested)],
    };
    let frames = match decode_message(&message) {
        Some(ControlEvent::Face { event: FaceEvent::CalibrateLower { frames } }) => frames,
        other => panic!("unexpected {other:?}"),
    };
    assert_eq!(frames, expected);
    let mut window = CaptureWindow::new();
    window.start(frames as usize);
    for _ in 1..frames {
        assert_eq!(window.step(), WindowStep::Collect);
    }
    assert_eq!(window.step(), WindowStep::Finish);
}

#[test]
fn decimal_rendering() {
    for n in [0u8, 9, 10, 42, 99, 100, 205, 255] {
        let mut text = String::from("n=");
        snout::text::push_decimal(&mut text, n);
        assert_eq!(text, format!("n={n}"));
    }
}

#[test]
fn cancel_default_is_not_set() {
    let c = Cancel::default();
    assert!(!c.is_cancelled());
}
