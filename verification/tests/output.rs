use snout::calibration::{EyeShape, FaceShape};
use snout::osc::OscArg;
use snout::output::{BabbleEmitter, EtvrEmitter, NativeEmitter};

#[test]
fn babble_sends_one_message_per_face_weight() {
    let emitter = BabbleEmitter::new();
    let weights = [(FaceShape::JawOpen, 0.5f32.to_bits()), (FaceShape::TongueOut, 1.0f32.to_bits())];
    let messages = emitter.face_messages(&weights);
    assert_eq!(messages.len(), 2);
    assert_eq!(messages[0].addr, "/jawOpen");
    assert!(matches!(messages[0].args.as_slice(), [OscArg::Float(b)] if f32::from_bits(*b) == 0.5));
    assert_eq!(messages[1].addr, "/tongueOut");
    assert!(emitter.face_messages(&[]).is_empty());
}

#[test]
fn etvr_reports_only_its_shapes() {
    let emitter = EtvrEmitter::new();
    let weights = [
        (EyeShape::LeftEyePitch, 1),
        (EyeShape::LeftEyeWiden, 2),
        (EyeShape::RightEyeLid, 3),
        (EyeShape::RightEyeSquint, 4),
    ];
    let messages = emitter.eye_messages(&weights);
    assert_eq!(messages.len(), 2);
    assert_eq!(messages[0].addr, "/avatar/parameters/v2/EyeLeftY");
    assert!(matches!(messages[0].args.as_slice(), [OscArg::Float(1)]));
    assert_eq!(messages[1].addr, "/avatar/parameters/v2/EyeLidRight");
    assert!(matches!(messages[1].args.as_slice(), [OscArg::Float(3)]));
    let _ = NativeEmitter::new();
}
