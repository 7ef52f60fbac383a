use snout::calibration::FaceShape;
use snout::control::{
    decode_datagram, decode_message, decode_packet, ControlEvent, EyeEvent, FaceEvent, Side,
};
use snout::osc::{OscArg, OscMessage, Packet};
use snout::remote::{Command, EyeCommand, FaceCommand};

fn msg(addr: &str, args: Vec<OscArg>) -> OscMessage {
    OscMessage { addr: addr.to_string(), args }
}

fn s(v: &str) -> OscArg {
    OscArg::String(v.to_string())
}

#[test]
fn decodes_face_bounds() {
    let lower = 0.4f32.to_bits();
    let upper = 1.0f32.to_bits();
    let event = decode_message(&msg(
        "/snout/face/bounds",
        vec![s("mouthLeft"), OscArg::Float(lower), OscArg::Float(upper)],
    ));
    match event {
        Some(ControlEvent::Face { event: FaceEvent::SetBounds { shape, lower: l, upper: u } }) => {
            assert_eq!(shape, FaceShape::MouthLeft);
            assert_eq!(f32::from_bits(l), 0.4);
            assert_eq!(f32::from_bits(u), 1.0);
        }
        other => panic!("unexpected {other:?}"),
    }
}

#[test]
fn rejects_bounds_with_unknown_shape_or_wrong_arguments() {
    let f = OscArg::Float(0);
    assert!(decode_message(&msg("/snout/face/bounds", vec![s("MouthLeft"), f.clone(), f.clone()])).is_none());
    assert!(decode_message(&msg("/snout/face/bounds", vec![s("mouthLeft"), f.clone()])).is_none());
    assert!(decode_message(&msg("/snout/face/bounds", vec![s("mouthLeft"), OscArg::Int(1), f.clone()])).is_none());
}

#[test]
fn calibrate_lower_takes_at_least_one_frame() {
    for (n, expected) in [(100, 100u32), (1, 1), (0, 1), (-5, 1)] {
        match decode_message(&msg("/snout/face/calibrate/lower", vec![OscArg::Int(n)])) {
            Some(ControlEvent::Face { event: FaceEvent::CalibrateLower { frames } }) => {
                assert_eq!(frames, expected)
            }
            other => panic!("unexpected {other:?}"),
        }
    }
    assert!(decode_message(&msg("/snout/face/calibrate/lower", vec![])).is_none());
    assert!(decode_message(&msg("/snout/face/calibrate/lower", vec![OscArg::Float(1)])).is_none());
}

#[test]
fn calibrate_upper() {
    match decode_message(&msg("/snout/face/calibrate/upper", vec![s("tongueOut"), OscArg::Int(50)])) {
        Some(ControlEvent::Face { event: FaceEvent::CalibrateUpper { shape, frames } }) => {
            assert_eq!(shape, FaceShape::TongueOut);
            assert_eq!(frames, 50);
        }
        other => panic!("unexpected {other:?}"),
    }
    assert!(decode_message(&msg("/snout/face/calibrate/upper", vec![s("tongue"), OscArg::Int(50)])).is_none());
}

#[test]
fn capture_paths_must_be_absolute() {
    match decode_message(&msg("/snout/face/capture", vec![s("/tmp/face.png")])) {
        Some(ControlEvent::Face { event: FaceEvent::Capture { path } }) => assert_eq!(path, "/tmp/face.png"),
        other => panic!("unexpected {other:?}"),
    }
    assert!(decode_message(&msg("/snout/face/capture", vec![s("face.png")])).is_none());
    assert!(decode_message(&msg("/snout/face/capture", vec![s("")])).is_none());
}

#[test]
fn eye_capture() {
    match decode_message(&msg("/snout/eye/capture", vec![s("right"), s("/tmp/r.png")])) {
        Some(ControlEvent::Eye { event: EyeEvent::Capture { side, path } }) => {
            assert_eq!(side, Side::Right);
            assert_eq!(path, "/tmp/r.png");
        }
        other => panic!("unexpected {other:?}"),
    }
    assert!(decode_message(&msg("/snout/eye/capture", vec![s("middle"), s("/tmp/r.png")])).is_none());
    assert!(decode_message(&msg("/snout/eye/capture", vec![s("left"), s("r.png")])).is_none());
}

#[test]
fn unknown_address_carries_nothing() {
    assert!(decode_message(&msg("/snout/face/calibrate", vec![])).is_none());
    assert!(decode_message(&msg("/other", vec![OscArg::Int(1)])).is_none());
}

#[test]
fn bundles_deliver_every_event_in_order() {
    let packet = Packet::Bundle(vec![
        Packet::Message(msg("/snout/face/calibrate/lower", vec![OscArg::Int(7)])),
        Packet::Message(msg("/unknown", vec![])),
        Packet::Bundle(vec![
            Packet::Message(msg("/snout/eye/capture", vec![s("left"), s("/a")])),
            Packet::Bundle(vec![]),
        ]),
        Packet::Message(msg("/snout/face/capture", vec![s("/b")])),
    ]);
    let events = decode_packet(&packet);
    assert_eq!(events.len(), 3);
    assert!(matches!(events[0], ControlEvent::Face { event: FaceEvent::CalibrateLower { frames: 7 } }));
    assert!(matches!(&events[1], ControlEvent::Eye { event: EyeEvent::Capture { side: Side::Left, path } } if path == "/a"));
    assert!(matches!(&events[2], ControlEvent::Face { event: FaceEvent::Capture { path } } if path == "/b"));
    assert!(decode_packet(&Packet::Bundle(vec![])).is_empty());
}

#[test]
fn remote_commands_decode_to_their_events() {
    let m = Command::Face {
        command: FaceCommand::Bounds { shape: "jawOpen".to_string(), lower: 3, upper: 9 },
    }
    .into_message()
    .unwrap();
    assert_eq!(m.addr, "/snout/face/bounds");
    assert!(matches!(
        decode_message(&m),
        Some(ControlEvent::Face { event: FaceEvent::SetBounds { shape: FaceShape::JawOpen, lower: 3, upper: 9 } })
    ));

    let m = FaceCommand::CalibrateLower { frames: 100 }.into_message().unwrap();
    assert!(matches!(
        decode_message(&m),
        Some(ControlEvent::Face { event: FaceEvent::CalibrateLower { frames: 100 } })
    ));

    let m = FaceCommand::CalibrateUpper { shape: "jawLeft".to_string(), frames: 30 }.into_message().unwrap();
    assert!(matches!(
        decode_message(&m),
        Some(ControlEvent::Face { event: FaceEvent::CalibrateUpper { shape: FaceShape::JawLeft, frames: 30 } })
    ));

    let m = FaceCommand::Capture { path: "frame.png".to_string() }.into_message().unwrap();
    match &m.args[0] {
        OscArg::String(p) => assert!(p.starts_with('/') && p.ends_with("frame.png")),
        other => panic!("unexpected {other:?}"),
    }
    assert!(matches!(decode_message(&m), Some(ControlEvent::Face { event: FaceEvent::Capture { .. } })));

    let m = EyeCommand::Capture { side: Side::Left, path: "/tmp/eye.png".to_string() }.into_message().unwrap();
    assert!(matches!(
        decode_message(&m),
        Some(ControlEvent::Eye { event: EyeEvent::Capture { side: Side::Left, path } }) if path == "/tmp/eye.png"
    ));
}

#[test]
fn remote_frame_counts_beyond_i32_become_one_frame() {
    let m = FaceCommand::CalibrateLower { frames: u32::MAX }.into_message().unwrap();
    assert!(matches!(
        decode_message(&m),
        Some(ControlEvent::Face { event: FaceEvent::CalibrateLower { frames: 1 } })
    ));
}

#[test]
fn remote_empty_capture_path_is_an_error() {
    assert!(FaceCommand::Capture { path: String::new() }.into_message().is_err());
    assert!(EyeCommand::Capture { side: Side::Right, path: String::new() }.into_message().is_err());
}

#[test]
fn side_names() {
    assert_eq!(Side::Left.as_str(), "left");
    assert_eq!(Side::Right.as_str(), "right");
}

#[test]
fn datagrams_decode_through_osc() {
    let lower = rosc::OscPacket::Message(rosc::OscMessage {
        addr: "/snout/face/calibrate/lower".to_string(),
        args: vec![rosc::OscType::Int(7)],
    });
    let bounds = rosc::OscPacket::Message(rosc::OscMessage {
        addr: "/snout/face/bounds".to_string(),
        args: vec![
            rosc::OscType::String("jawOpen".to_string()),
            rosc::OscType::Float(0.25),
            rosc::OscType::Float(0.75),
        ],
    });
    let eye = rosc::OscPacket::Message(rosc::OscMessage {
        addr: "/snout/eye/capture".to_string(),
        args: vec![
            rosc::OscType::String("right".to_string()),
            rosc::OscType::String("/tmp/eye.png".to_string()),
        ],
    });
    let bundle = rosc::OscPacket::Bundle(rosc::OscBundle {
        timetag: rosc::OscTime { seconds: 0, fractional: 1 },
        content: vec![lower, bounds, eye],
    });
    let bytes = rosc::encoder::encode(&bundle).unwrap();
    let events = decode_datagram(&bytes);
    assert_eq!(events.len(), 3);
    match &events[0] {
        ControlEvent::Face { event: FaceEvent::CalibrateLower { frames } } => assert_eq!(*frames, 7),
        other => panic!("unexpected {other:?}"),
    }
    match &events[1] {
        ControlEvent::Face { event: FaceEvent::SetBounds { shape, lower, upper } } => {
            assert_eq!(*shape, FaceShape::JawOpen);
            assert_eq!(f32::from_bits(*lower), 0.25);
            assert_eq!(f32::from_bits(*upper), 0.75);
        }
        other => panic!("unexpected {other:?}"),
    }
    match &events[2] {
        ControlEvent::Eye { event: EyeEvent::Capture { side, path } } => {
            assert_eq!(*side, Side::Right);
            assert_eq!(path, "/tmp/eye.png");
        }
        other => panic!("unexpected {other:?}"),
    }
}

#[test]
fn datagrams_that_are_no_osc_carry_nothing() {
    assert!(decode_datagram(&[]).is_empty());
    assert!(decode_datagram(b"not osc at all").is_empty());
    let message = rosc::OscPacket::Message(rosc::OscMessage {
        addr: "/snout/face/calibrate".to_string(),
        args: vec![],
    });
    assert!(decode_datagram(&rosc::encoder::encode(&message).unwrap()).is_empty());
}

#[test]
fn capture_messages_carry_the_path_given() {
    let m = FaceCommand::capture_message("/tmp/face.png".to_string());
    assert_eq!(m.addr, "/snout/face/capture");
    assert!(matches!(&m.args[..], [OscArg::String(p)] if p == "/tmp/face.png"));
    let m = EyeCommand::capture_message(Side::Right, "/tmp/eye.png".to_string());
    assert_eq!(m.addr, "/snout/eye/capture");
    assert!(matches!(&m.args[..], [OscArg::String(s), OscArg::String(p)] if s == "right" && p == "/tmp/eye.png"));
    // A rooted path is sent as it is.
    let m = FaceCommand::Capture { path: "/tmp/face.png".to_string() }.into_message().unwrap();
    assert!(matches!(&m.args[..], [OscArg::String(p)] if p == "/tmp/face.png"));
}

#[test]
fn relative_capture_paths_are_resolved_against_a_directory() {
    let m = FaceCommand::Capture { path: "shots/face.png".to_string() }.into_message().unwrap();
    match &m.args[..] {
        [OscArg::String(p)] => assert!(p.starts_with('/') && p.ends_with("/shots/face.png"), "{p}"),
        other => panic!("unexpected {other:?}"),
    }
    let m = EyeCommand::Capture { side: Side::Left, path: "eye.png".to_string() }.into_message().unwrap();
    match &m.args[..] {
        [OscArg::String(s), OscArg::String(p)] => {
            assert_eq!(s, "left");
            assert!(p.starts_with('/') && p.ends_with("/eye.png"), "{p}");
        }
        other => panic!("unexpected {other:?}"),
    }
}
