use snout::calibration::{EyeShape, FaceShape};

const FACE_NAMES: [&str; 45] = [
    "cheekPuffLeft", "cheekPuffRight", "cheekSuckLeft", "cheekSuckRight", "jawOpen",
    "jawForward", "jawLeft", "jawRight", "noseSneerLeft", "noseSneerRight", "mouthFunnel",
    "mouthPucker", "mouthLeft", "mouthRight", "mouthRollUpper", "mouthRollLower",
    "mouthShrugUpper", "mouthShrugLower", "mouthClose", "mouthSmileLeft", "mouthSmileRight",
    "mouthFrownLeft", "mouthFrownRight", "mouthDimpleLeft", "mouthDimpleRight",
    "mouthUpperUpLeft", "mouthUpperUpRight", "mouthLowerDownLeft", "mouthLowerDownRight",
    "mouthPressLeft", "mouthPressRight", "mouthStretchLeft", "mouthStretchRight", "tongueOut",
    "tongueUp", "tongueDown", "tongueLeft", "tongueRight", "tongueRoll", "tongueBendDown",
    "tongueCurlUp", "tongueSquish", "tongueFlat", "tongueTwistLeft", "tongueTwistRight",
];

#[test]
fn face_shape_count_is_45() {
    assert_eq!(FaceShape::count(), 45);
}

#[test]
fn every_documented_face_name_parses_to_the_shape_at_its_position() {
    for (i, name) in FACE_NAMES.iter().enumerate() {
        let shape = FaceShape::from_str(name).expect("documented name parses");
        assert_eq!(shape.index(), i);
        assert_eq!(shape, FaceShape::from_index(i));
        assert_eq!(shape.to_babble(), format!("/{name}"));
    }
}

#[test]
fn face_names_are_case_sensitive() {
    assert!(FaceShape::from_str("MouthLeft").is_err());
    assert!(FaceShape::from_str("").is_err());
    assert!(FaceShape::from_str("jawopen").is_err());
    assert_eq!(FaceShape::from_str("mouthLeft"), Ok(FaceShape::MouthLeft));
}

#[test]
fn parse_error_message() {
    let err = FaceShape::from_str("nope").unwrap_err();
    assert_eq!(err.message(), "unknown face shape");
}

#[test]
fn face_index_roundtrip() {
    for i in 0..FaceShape::count() {
        assert_eq!(FaceShape::from_index(i).index(), i);
    }
    assert_eq!(FaceShape::from_index(0), FaceShape::CheekPuffLeft);
    assert_eq!(FaceShape::from_index(44), FaceShape::TongueTwistRight);
}

#[test]
fn eye_shape_count_is_12() {
    assert_eq!(EyeShape::count(), 12);
}

#[test]
fn eye_model_names() {
    assert_eq!(EyeShape::from_model_name("rightEyeY"), Some(EyeShape::RightEyePitch));
    assert_eq!(EyeShape::from_model_name("rightEyeX"), Some(EyeShape::RightEyeYaw));
    assert_eq!(EyeShape::from_model_name("leftEyeLid"), Some(EyeShape::LeftEyeLid));
    assert_eq!(EyeShape::from_model_name("leftEyeSquint"), Some(EyeShape::LeftEyeSquint));
    assert_eq!(EyeShape::from_model_name("leftEyePitch"), None);
    assert_eq!(EyeShape::from_model_name(""), None);
}

#[test]
fn eye_index_roundtrip() {
    for i in 0..EyeShape::count() {
        assert_eq!(EyeShape::from_index(i).index(), i);
    }
    assert_eq!(EyeShape::RightEyeSquint.index(), 11);
}

#[test]
fn eye_babble_and_etvr_addresses() {
    assert_eq!(EyeShape::LeftEyePitch.to_babble(), "/leftEyeY");
    assert_eq!(EyeShape::RightEyeYaw.to_babble(), "/rightEyeX");
    assert_eq!(EyeShape::LeftEyeLid.to_etvr(), Some("/avatar/parameters/v2/EyeLidLeft"));
    assert_eq!(EyeShape::RightEyePitch.to_etvr(), Some("/avatar/parameters/v2/EyeRightY"));
    assert_eq!(EyeShape::LeftEyeWiden.to_etvr(), None);
    assert_eq!(EyeShape::RightEyeBrow.to_etvr(), None);
    assert!(EyeShape::LeftEyeLid.is_etvr_inverted());
    assert!(EyeShape::RightEyeLid.is_etvr_inverted());
    assert!(!EyeShape::LeftEyeYaw.is_etvr_inverted());
}

#[test]
fn face_shapes_parse_through_from_str() {
    let shape: FaceShape = "jawOpen".parse().unwrap();
    assert_eq!(shape, FaceShape::JawOpen);
    assert!("JawOpen".parse::<FaceShape>().is_err());
}
