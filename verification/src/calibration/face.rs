//! Face blend shapes.

use vstd::prelude::*;

use crate::text::{name_signature, str_eq};

verus! {

/// A face blend shape produced by the face model. Variants are listed in model
/// output order: the doc comment of each gives its position.
#[derive(Copy, Clone, Debug, PartialEq, Eq, Hash, Structural)]
pub enum FaceShape {
    /// Output 0: cheek puff left.
    CheekPuffLeft,
    /// Output 1: cheek puff right.
    CheekPuffRight,
    /// Output 2: cheek suck left.
    CheekSuckLeft,
    /// Output 3: cheek suck right.
    CheekSuckRight,
    /// Output 4: jaw open.
    JawOpen,
    /// Output 5: jaw forward.
    JawForward,
    /// Output 6: jaw left.
    JawLeft,
    /// Output 7: jaw right.
    JawRight,
    /// Output 8: nose sneer left.
    NoseSneerLeft,
    /// Output 9: nose sneer right.
    NoseSneerRight,
    /// Output 10: mouth funnel.
    MouthFunnel,
    /// Output 11: mouth pucker.
    MouthPucker,
    /// Output 12: mouth left.
    MouthLeft,
    /// Output 13: mouth right.
    MouthRight,
    /// Output 14: mouth roll upper.
    MouthRollUpper,
    /// Output 15: mouth roll lower.
    MouthRollLower,
    /// Output 16: mouth shrug upper.
    MouthShrugUpper,
    /// Output 17: mouth shrug lower.
    MouthShrugLower,
    /// Output 18: mouth close.
    MouthClose,
    /// Output 19: mouth smile left.
    MouthSmileLeft,
    /// Output 20: mouth smile right.
    MouthSmileRight,
    /// Output 21: mouth frown left.
    MouthFrownLeft,
    /// Output 22: mouth frown right.
    MouthFrownRight,
    /// Output 23: mouth dimple left.
    MouthDimpleLeft,
    /// Output 24: mouth dimple right.
    MouthDimpleRight,
    /// Output 25: mouth upper up left.
    MouthUpperUpLeft,
    /// Output 26: mouth upper up right.
    MouthUpperUpRight,
    /// Output 27: mouth lower down left.
    MouthLowerDownLeft,
    /// Output 28: mouth lower down right.
    MouthLowerDownRight,
    /// Output 29: mouth press left.
    MouthPressLeft,
    /// Output 30: mouth press right.
    MouthPressRight,
    /// Output 31: mouth stretch left.
    MouthStretchLeft,
    /// Output 32: mouth stretch right.
    MouthStretchRight,
    /// Output 33: tongue out.
    TongueOut,
    /// Output 34: tongue up.
    TongueUp,
    /// Output 35: tongue down.
    TongueDown,
    /// Output 36: tongue left.
    TongueLeft,
    /// Output 37: tongue right.
    TongueRight,
    /// Output 38: tongue roll.
    TongueRoll,
    /// Output 39: tongue bend down.
    TongueBendDown,
    /// Output 40: tongue curl up.
    TongueCurlUp,
    /// Output 41: tongue squish.
    TongueSquish,
    /// Output 42: tongue flat.
    TongueFlat,
    /// Output 43: tongue twist left.
    TongueTwistLeft,
    /// Output 44: tongue twist right.
    TongueTwistRight,
}

/// Error returned when a string does not name a [`FaceShape`].
#[derive(Copy, Clone, Debug, PartialEq, Eq, Structural)]
pub struct ParseFaceShapeError;

impl ParseFaceShapeError {
    /// The human readable description of the error.
    pub fn message(&self) -> (r: &'static str)
        ensures
            r@ == "unknown face shape"@,
    {
        "unknown face shape"
    }
}

/// Number of face shapes.
pub open spec fn face_shape_count() -> nat {
    45
}

/// Position of a shape in the model output.
pub open spec fn face_index(shape: FaceShape) -> nat {
    face_table(shape).0
}

/// The shape at a position of the model output.
pub open spec fn face_shape_at(index: nat) -> FaceShape
    recommends
        index < face_shape_count(),
{
    if index == 0 {
        FaceShape::CheekPuffLeft
    }
 else if index == 1 {
        FaceShape::CheekPuffRight
    }
 else if index == 2 {
        FaceShape::CheekSuckLeft
    }
 else if index == 3 {
        FaceShape::CheekSuckRight
    }
 else if index == 4 {
        FaceShape::JawOpen
    }
 else if index == 5 {
        FaceShape::JawForward
    }
 else if index == 6 {
        FaceShape::JawLeft
    }
 else if index == 7 {
        FaceShape::JawRight
    }
 else if index == 8 {
        FaceShape::NoseSneerLeft
    }
 else if index == 9 {
        FaceShape::NoseSneerRight
    }
 else if index == 10 {
        FaceShape::MouthFunnel
    }
 else if index == 11 {
        FaceShape::MouthPucker
    }
 else if index == 12 {
        FaceShape::MouthLeft
    }
 else if index == 13 {
        FaceShape::MouthRight
    }
 else if index == 14 {
        FaceShape::MouthRollUpper
    }
 else if index == 15 {
        FaceShape::MouthRollLower
    }
 else if index == 16 {
        FaceShape::MouthShrugUpper
    }
 else if index == 17 {
        FaceShape::MouthShrugLower
    }
 else if index == 18 {
        FaceShape::MouthClose
    }
 else if index == 19 {
        FaceShape::MouthSmileLeft
    }
 else if index == 20 {
        FaceShape::MouthSmileRight
    }
 else if index == 21 {
        FaceShape::MouthFrownLeft
    }
 else if index == 22 {
        FaceShape::MouthFrownRight
    }
 else if index == 23 {
        FaceShape::MouthDimpleLeft
    }
 else if index == 24 {
        FaceShape::MouthDimpleRight
    }
 else if index == 25 {
        FaceShape::MouthUpperUpLeft
    }
 else if index == 26 {
        FaceShape::MouthUpperUpRight
    }
 else if index == 27 {
        FaceShape::MouthLowerDownLeft
    }
 else if index == 28 {
        FaceShape::MouthLowerDownRight
    }
 else if index == 29 {
        FaceShape::MouthPressLeft
    }
 else if index == 30 {
        FaceShape::MouthPressRight
    }
 else if index == 31 {
        FaceShape::MouthStretchLeft
    }
 else if index == 32 {
        FaceShape::MouthStretchRight
    }
 else if index == 33 {
        FaceShape::TongueOut
    }
 else if index == 34 {
        FaceShape::TongueUp
    }
 else if index == 35 {
        FaceShape::TongueDown
    }
 else if index == 36 {
        FaceShape::TongueLeft
    }
 else if index == 37 {
        FaceShape::TongueRight
    }
 else if index == 38 {
        FaceShape::TongueRoll
    }
 else if index == 39 {
        FaceShape::TongueBendDown
    }
 else if index == 40 {
        FaceShape::TongueCurlUp
    }
 else if index == 41 {
        FaceShape::TongueSquish
    }
 else if index == 42 {
        FaceShape::TongueFlat
    }
 else if index == 43 {
        FaceShape::TongueTwistLeft
    }
 else {
        FaceShape::TongueTwistRight
    }
}

/// The position of a shape in the model output, its name (as used in
/// configuration files and on the control channel) and the OSC address under
/// which the Babble protocol reports it.
pub open spec fn face_table(shape: FaceShape) -> (nat, Seq<char>, Seq<char>) {
    match shape {
        FaceShape::CheekPuffLeft => (0, "cheekPuffLeft"@, "/cheekPuffLeft"@),
        FaceShape::CheekPuffRight => (1, "cheekPuffRight"@, "/cheekPuffRight"@),
        FaceShape::CheekSuckLeft => (2, "cheekSuckLeft"@, "/cheekSuckLeft"@),
        FaceShape::CheekSuckRight => (3, "cheekSuckRight"@, "/cheekSuckRight"@),
        FaceShape::JawOpen => (4, "jawOpen"@, "/jawOpen"@),
        FaceShape::JawForward => (5, "jawForward"@, "/jawForward"@),
        FaceShape::JawLeft => (6, "jawLeft"@, "/jawLeft"@),
        FaceShape::JawRight => (7, "jawRight"@, "/jawRight"@),
        FaceShape::NoseSneerLeft => (8, "noseSneerLeft"@, "/noseSneerLeft"@),
        FaceShape::NoseSneerRight => (9, "noseSneerRight"@, "/noseSneerRight"@),
        FaceShape::MouthFunnel => (10, "mouthFunnel"@, "/mouthFunnel"@),
        FaceShape::MouthPucker => (11, "mouthPucker"@, "/mouthPucker"@),
        FaceShape::MouthLeft => (12, "mouthLeft"@, "/mouthLeft"@),
        FaceShape::MouthRight => (13, "mouthRight"@, "/mouthRight"@),
        FaceShape::MouthRollUpper => (14, "mouthRollUpper"@, "/mouthRollUpper"@),
        FaceShape::MouthRollLower => (15, "mouthRollLower"@, "/mouthRollLower"@),
        FaceShape::MouthShrugUpper => (16, "mouthShrugUpper"@, "/mouthShrugUpper"@),
        FaceShape::MouthShrugLower => (17, "mouthShrugLower"@, "/mouthShrugLower"@),
        FaceShape::MouthClose => (18, "mouthClose"@, "/mouthClose"@),
        FaceShape::MouthSmileLeft => (19, "mouthSmileLeft"@, "/mouthSmileLeft"@),
        FaceShape::MouthSmileRight => (20, "mouthSmileRight"@, "/mouthSmileRight"@),
        FaceShape::MouthFrownLeft => (21, "mouthFrownLeft"@, "/mouthFrownLeft"@),
        FaceShape::MouthFrownRight => (22, "mouthFrownRight"@, "/mouthFrownRight"@),
        FaceShape::MouthDimpleLeft => (23, "mouthDimpleLeft"@, "/mouthDimpleLeft"@),
        FaceShape::MouthDimpleRight => (24, "mouthDimpleRight"@, "/mouthDimpleRight"@),
        FaceShape::MouthUpperUpLeft => (25, "mouthUpperUpLeft"@, "/mouthUpperUpLeft"@),
        FaceShape::MouthUpperUpRight => (26, "mouthUpperUpRight"@, "/mouthUpperUpRight"@),
        FaceShape::MouthLowerDownLeft => (27, "mouthLowerDownLeft"@, "/mouthLowerDownLeft"@),
        FaceShape::MouthLowerDownRight => (28, "mouthLowerDownRight"@, "/mouthLowerDownRight"@),
        FaceShape::MouthPressLeft => (29, "mouthPressLeft"@, "/mouthPressLeft"@),
        FaceShape::MouthPressRight => (30, "mouthPressRight"@, "/mouthPressRight"@),
        FaceShape::MouthStretchLeft => (31, "mouthStretchLeft"@, "/mouthStretchLeft"@),
        FaceShape::MouthStretchRight => (32, "mouthStretchRight"@, "/mouthStretchRight"@),
        FaceShape::TongueOut => (33, "tongueOut"@, "/tongueOut"@),
        FaceShape::TongueUp => (34, "tongueUp"@, "/tongueUp"@),
        FaceShape::TongueDown => (35, "tongueDown"@, "/tongueDown"@),
        FaceShape::TongueLeft => (36, "tongueLeft"@, "/tongueLeft"@),
        FaceShape::TongueRight => (37, "tongueRight"@, "/tongueRight"@),
        FaceShape::TongueRoll => (38, "tongueRoll"@, "/tongueRoll"@),
        FaceShape::TongueBendDown => (39, "tongueBendDown"@, "/tongueBendDown"@),
        FaceShape::TongueCurlUp => (40, "tongueCurlUp"@, "/tongueCurlUp"@),
        FaceShape::TongueSquish => (41, "tongueSquish"@, "/tongueSquish"@),
        FaceShape::TongueFlat => (42, "tongueFlat"@, "/tongueFlat"@),
        FaceShape::TongueTwistLeft => (43, "tongueTwistLeft"@, "/tongueTwistLeft"@),
        FaceShape::TongueTwistRight => (44, "tongueTwistRight"@, "/tongueTwistRight"@),
    }
}

/// The name of a shape, as used in configuration files and on the control channel.
pub open spec fn face_name(shape: FaceShape) -> Seq<char> {
    face_table(shape).1
}

/// The OSC address under which the Babble protocol reports a shape.
pub open spec fn face_babble_address(shape: FaceShape) -> Seq<char> {
    face_table(shape).2
}

/// The shape with the name `name`, if there is one.
pub open spec fn face_shape_named(name: Seq<char>) -> Option<FaceShape> {
    if exists|shape: FaceShape| face_name(shape) == name {
        Some(choose|shape: FaceShape| face_name(shape) == name)
    } else {
        None
    }
}

/// The position of a shape in the model output leads back to the shape.
pub proof fn lemma_face_index_roundtrip(shape: FaceShape)
    ensures
        face_index(shape) < face_shape_count(),
        face_shape_at(face_index(shape)) == shape,
{
}

/// A short fingerprint of each face shape's name: its length and three of its
/// characters. No two shapes share one (see [`name_signature`]).
pub open spec fn face_signature(shape: FaceShape) -> (nat, char, char, char) {
    match shape {
        FaceShape::CheekPuffLeft => (13, 't', 'L', 'f'),
        FaceShape::CheekPuffRight => (14, 't', 'i', 'f'),
        FaceShape::CheekSuckLeft => (13, 't', 'L', 'c'),
        FaceShape::CheekSuckRight => (14, 't', 'i', 'k'),
        FaceShape::JawOpen => (7, 'n', 'O', 'a'),
        FaceShape::JawForward => (10, 'd', 'w', 'o'),
        FaceShape::JawLeft => (7, 't', 'L', 'a'),
        FaceShape::JawRight => (8, 't', 'i', 'w'),
        FaceShape::NoseSneerLeft => (13, 't', 'L', 'e'),
        FaceShape::NoseSneerRight => (14, 't', 'i', 'r'),
        FaceShape::MouthFunnel => (11, 'l', 'n', 'F'),
        FaceShape::MouthPucker => (11, 'r', 'c', 'P'),
        FaceShape::MouthLeft => (9, 't', 'L', 't'),
        FaceShape::MouthRight => (10, 't', 'i', 'h'),
        FaceShape::MouthRollUpper => (14, 'r', 'p', 'l'),
        FaceShape::MouthRollLower => (14, 'r', 'o', 'l'),
        FaceShape::MouthShrugUpper => (15, 'r', 'p', 'g'),
        FaceShape::MouthShrugLower => (15, 'r', 'o', 'g'),
        FaceShape::MouthClose => (10, 'e', 'l', 'h'),
        FaceShape::MouthSmileLeft => (14, 't', 'L', 'l'),
        FaceShape::MouthSmileRight => (15, 't', 'i', 'e'),
        FaceShape::MouthFrownLeft => (14, 't', 'L', 'w'),
        FaceShape::MouthFrownRight => (15, 't', 'i', 'n'),
        FaceShape::MouthDimpleLeft => (15, 't', 'L', 'l'),
        FaceShape::MouthDimpleRight => (16, 't', 'i', 'e'),
        FaceShape::MouthUpperUpLeft => (16, 't', 'L', 'U'),
        FaceShape::MouthUpperUpRight => (17, 't', 'i', 'p'),
        FaceShape::MouthLowerDownLeft => (18, 't', 'L', 'w'),
        FaceShape::MouthLowerDownRight => (19, 't', 'i', 'n'),
        FaceShape::MouthPressLeft => (14, 't', 'L', 's'),
        FaceShape::MouthPressRight => (15, 't', 'i', 's'),
        FaceShape::MouthStretchLeft => (16, 't', 'L', 'c'),
        FaceShape::MouthStretchRight => (17, 't', 'i', 'h'),
        FaceShape::TongueOut => (9, 't', 'e', 'g'),
        FaceShape::TongueUp => (8, 'p', 'u', 'n'),
        FaceShape::TongueDown => (10, 'n', 'D', 'u'),
        FaceShape::TongueLeft => (10, 't', 'L', 'u'),
        FaceShape::TongueRight => (11, 't', 'i', 'e'),
        FaceShape::TongueRoll => (10, 'l', 'R', 'u'),
        FaceShape::TongueBendDown => (14, 'n', 'D', 'n'),
        FaceShape::TongueCurlUp => (12, 'p', 'r', 'C'),
        FaceShape::TongueSquish => (12, 'h', 'u', 'S'),
        FaceShape::TongueFlat => (10, 't', 'F', 'u'),
        FaceShape::TongueTwistLeft => (15, 't', 'L', 's'),
        FaceShape::TongueTwistRight => (16, 't', 'i', 't'),
    }
}

/// The fingerprint of a shape's name is the one listed for the shape.
proof fn lemma_face_signature(shape: FaceShape)
    ensures
        name_signature(face_name(shape)) == face_signature(shape),
{
    match shape {
        FaceShape::CheekPuffLeft => reveal_strlit("cheekPuffLeft"),
        FaceShape::CheekPuffRight => reveal_strlit("cheekPuffRight"),
        FaceShape::CheekSuckLeft => reveal_strlit("cheekSuckLeft"),
        FaceShape::CheekSuckRight => reveal_strlit("cheekSuckRight"),
        FaceShape::JawOpen => reveal_strlit("jawOpen"),
        FaceShape::JawForward => reveal_strlit("jawForward"),
        FaceShape::JawLeft => reveal_strlit("jawLeft"),
        FaceShape::JawRight => reveal_strlit("jawRight"),
        FaceShape::NoseSneerLeft => reveal_strlit("noseSneerLeft"),
        FaceShape::NoseSneerRight => reveal_strlit("noseSneerRight"),
        FaceShape::MouthFunnel => reveal_strlit("mouthFunnel"),
        FaceShape::MouthPucker => reveal_strlit("mouthPucker"),
        FaceShape::MouthLeft => reveal_strlit("mouthLeft"),
        FaceShape::MouthRight => reveal_strlit("mouthRight"),
        FaceShape::MouthRollUpper => reveal_strlit("mouthRollUpper"),
        FaceShape::MouthRollLower => reveal_strlit("mouthRollLower"),
        FaceShape::MouthShrugUpper => reveal_strlit("mouthShrugUpper"),
        FaceShape::MouthShrugLower => reveal_strlit("mouthShrugLower"),
        FaceShape::MouthClose => reveal_strlit("mouthClose"),
        FaceShape::MouthSmileLeft => reveal_strlit("mouthSmileLeft"),
        FaceShape::MouthSmileRight => reveal_strlit("mouthSmileRight"),
        FaceShape::MouthFrownLeft => reveal_strlit("mouthFrownLeft"),
        FaceShape::MouthFrownRight => reveal_strlit("mouthFrownRight"),
        FaceShape::MouthDimpleLeft => reveal_strlit("mouthDimpleLeft"),
        FaceShape::MouthDimpleRight => reveal_strlit("mouthDimpleRight"),
        FaceShape::MouthUpperUpLeft => reveal_strlit("mouthUpperUpLeft"),
        FaceShape::MouthUpperUpRight => reveal_strlit("mouthUpperUpRight"),
        FaceShape::MouthLowerDownLeft => reveal_strlit("mouthLowerDownLeft"),
        FaceShape::MouthLowerDownRight => reveal_strlit("mouthLowerDownRight"),
        FaceShape::MouthPressLeft => reveal_strlit("mouthPressLeft"),
        FaceShape::MouthPressRight => reveal_strlit("mouthPressRight"),
        FaceShape::MouthStretchLeft => reveal_strlit("mouthStretchLeft"),
        FaceShape::MouthStretchRight => reveal_strlit("mouthStretchRight"),
        FaceShape::TongueOut => reveal_strlit("tongueOut"),
        FaceShape::TongueUp => reveal_strlit("tongueUp"),
        FaceShape::TongueDown => reveal_strlit("tongueDown"),
        FaceShape::TongueLeft => reveal_strlit("tongueLeft"),
        FaceShape::TongueRight => reveal_strlit("tongueRight"),
        FaceShape::TongueRoll => reveal_strlit("tongueRoll"),
        FaceShape::TongueBendDown => reveal_strlit("tongueBendDown"),
        FaceShape::TongueCurlUp => reveal_strlit("tongueCurlUp"),
        FaceShape::TongueSquish => reveal_strlit("tongueSquish"),
        FaceShape::TongueFlat => reveal_strlit("tongueFlat"),
        FaceShape::TongueTwistLeft => reveal_strlit("tongueTwistLeft"),
        FaceShape::TongueTwistRight => reveal_strlit("tongueTwistRight"),
    }
}

/// Different face shapes have different names, so a name determines its shape.
pub proof fn lemma_face_name_injective(a: FaceShape, b: FaceShape)
    ensures
        face_name(a) == face_name(b) ==> a == b,
{
    lemma_face_signature(a);
    lemma_face_signature(b);
}

/// The Babble address of a face shape is `/` followed by its name.
pub proof fn lemma_face_babble_address_is_name(shape: FaceShape)
    ensures
        face_babble_address(shape) == seq!['/'] + face_name(shape),
{
    match shape {
        FaceShape::CheekPuffLeft => {
            reveal_strlit("cheekPuffLeft");
            reveal_strlit("/cheekPuffLeft");
            assert(face_babble_address(shape) =~= seq!['/'] + face_name(shape));
        },
        FaceShape::CheekPuffRight => {
            reveal_strlit("cheekPuffRight");
            reveal_strlit("/cheekPuffRight");
            assert(face_babble_address(shape) =~= seq!['/'] + face_name(shape));
        },
        FaceShape::CheekSuckLeft => {
            reveal_strlit("cheekSuckLeft");
            reveal_strlit("/cheekSuckLeft");
            assert(face_babble_address(shape) =~= seq!['/'] + face_name(shape));
        },
        FaceShape::CheekSuckRight => {
            reveal_strlit("cheekSuckRight");
            reveal_strlit("/cheekSuckRight");
            assert(face_babble_address(shape) =~= seq!['/'] + face_name(shape));
        },
        FaceShape::JawOpen => {
            reveal_strlit("jawOpen");
            reveal_strlit("/jawOpen");
            assert(face_babble_address(shape) =~= seq!['/'] + face_name(shape));
        },
        FaceShape::JawForward => {
            reveal_strlit("jawForward");
            reveal_strlit("/jawForward");
            assert(face_babble_address(shape) =~= seq!['/'] + face_name(shape));
        },
        FaceShape::JawLeft => {
            reveal_strlit("jawLeft");
            reveal_strlit("/jawLeft");
            assert(face_babble_address(shape) =~= seq!['/'] + face_name(shape));
        },
        FaceShape::JawRight => {
            reveal_strlit("jawRight");
            reveal_strlit("/jawRight");
            assert(face_babble_address(shape) =~= seq!['/'] + face_name(shape));
        },
        FaceShape::NoseSneerLeft => {
            reveal_strlit("noseSneerLeft");
            reveal_strlit("/noseSneerLeft");
            assert(face_babble_address(shape) =~= seq!['/'] + face_name(shape));
        },
        FaceShape::NoseSneerRight => {
            reveal_strlit("noseSneerRight");
            reveal_strlit("/noseSneerRight");
            assert(face_babble_address(shape) =~= seq!['/'] + face_name(shape));
        },
        FaceShape::MouthFunnel => {
            reveal_strlit("mouthFunnel");
            reveal_strlit("/mouthFunnel");
            assert(face_babble_address(shape) =~= seq!['/'] + face_name(shape));
        },
        FaceShape::MouthPucker => {
            reveal_strlit("mouthPucker");
            reveal_strlit("/mouthPucker");
            assert(face_babble_address(shape) =~= seq!['/'] + face_name(shape));
        },
        FaceShape::MouthLeft => {
            reveal_strlit("mouthLeft");
            reveal_strlit("/mouthLeft");
            assert(face_babble_address(shape) =~= seq!['/'] + face_name(shape));
        },
        FaceShape::MouthRight => {
            reveal_strlit("mouthRight");
            reveal_strlit("/mouthRight");
            assert(face_babble_address(shape) =~= seq!['/'] + face_name(shape));
        },
        FaceShape::MouthRollUpper => {
            reveal_strlit("mouthRollUpper");
            reveal_strlit("/mouthRollUpper");
            assert(face_babble_address(shape) =~= seq!['/'] + face_name(shape));
        },
        FaceShape::MouthRollLower => {
            reveal_strlit("mouthRollLower");
            reveal_strlit("/mouthRollLower");
            assert(face_babble_address(shape) =~= seq!['/'] + face_name(shape));
        },
        FaceShape::MouthShrugUpper => {
            reveal_strlit("mouthShrugUpper");
            reveal_strlit("/mouthShrugUpper");
            assert(face_babble_address(shape) =~= seq!['/'] + face_name(shape));
        },
        FaceShape::MouthShrugLower => {
            reveal_strlit("mouthShrugLower");
            reveal_strlit("/mouthShrugLower");
            assert(face_babble_address(shape) =~= seq!['/'] + face_name(shape));
        },
        FaceShape::MouthClose => {
            reveal_strlit("mouthClose");
            reveal_strlit("/mouthClose");
            assert(face_babble_address(shape) =~= seq!['/'] + face_name(shape));
        },
        FaceShape::MouthSmileLeft => {
            reveal_strlit("mouthSmileLeft");
            reveal_strlit("/mouthSmileLeft");
            assert(face_babble_address(shape) =~= seq!['/'] + face_name(shape));
        },
        FaceShape::MouthSmileRight => {
            reveal_strlit("mouthSmileRight");
            reveal_strlit("/mouthSmileRight");
            assert(face_babble_address(shape) =~= seq!['/'] + face_name(shape));
        },
        FaceShape::MouthFrownLeft => {
            reveal_strlit("mouthFrownLeft");
            reveal_strlit("/mouthFrownLeft");
            assert(face_babble_address(shape) =~= seq!['/'] + face_name(shape));
        },
        FaceShape::MouthFrownRight => {
            reveal_strlit("mouthFrownRight");
            reveal_strlit("/mouthFrownRight");
            assert(face_babble_address(shape) =~= seq!['/'] + face_name(shape));
        },
        FaceShape::MouthDimpleLeft => {
            reveal_strlit("mouthDimpleLeft");
            reveal_strlit("/mouthDimpleLeft");
            assert(face_babble_address(shape) =~= seq!['/'] + face_name(shape));
        },
        FaceShape::MouthDimpleRight => {
            reveal_strlit("mouthDimpleRight");
            reveal_strlit("/mouthDimpleRight");
            assert(face_babble_address(shape) =~= seq!['/'] + face_name(shape));
        },
        FaceShape::MouthUpperUpLeft => {
            reveal_strlit("mouthUpperUpLeft");
            reveal_strlit("/mouthUpperUpLeft");
            assert(face_babble_address(shape) =~= seq!['/'] + face_name(shape));
        },
        FaceShape::MouthUpperUpRight => {
            reveal_strlit("mouthUpperUpRight");
            reveal_strlit("/mouthUpperUpRight");
            assert(face_babble_address(shape) =~= seq!['/'] + face_name(shape));
        },
        FaceShape::MouthLowerDownLeft => {
            reveal_strlit("mouthLowerDownLeft");
            reveal_strlit("/mouthLowerDownLeft");
            assert(face_babble_address(shape) =~= seq!['/'] + face_name(shape));
        },
        FaceShape::MouthLowerDownRight => {
            reveal_strlit("mouthLowerDownRight");
            reveal_strlit("/mouthLowerDownRight");
            assert(face_babble_address(shape) =~= seq!['/'] + face_name(shape));
        },
        FaceShape::MouthPressLeft => {
            reveal_strlit("mouthPressLeft");
            reveal_strlit("/mouthPressLeft");
            assert(face_babble_address(shape) =~= seq!['/'] + face_name(shape));
        },
        FaceShape::MouthPressRight => {
            reveal_strlit("mouthPressRight");
            reveal_strlit("/mouthPressRight");
            assert(face_babble_address(shape) =~= seq!['/'] + face_name(shape));
        },
        FaceShape::MouthStretchLeft => {
            reveal_strlit("mouthStretchLeft");
            reveal_strlit("/mouthStretchLeft");
            assert(face_babble_address(shape) =~= seq!['/'] + face_name(shape));
        },
        FaceShape::MouthStretchRight => {
            reveal_strlit("mouthStretchRight");
            reveal_strlit("/mouthStretchRight");
            assert(face_babble_address(shape) =~= seq!['/'] + face_name(shape));
        },
        FaceShape::TongueOut => {
            reveal_strlit("tongueOut");
            reveal_strlit("/tongueOut");
            assert(face_babble_address(shape) =~= seq!['/'] + face_name(shape));
        },
        FaceShape::TongueUp => {
            reveal_strlit("tongueUp");
            reveal_strlit("/tongueUp");
            assert(face_babble_address(shape) =~= seq!['/'] + face_name(shape));
        },
        FaceShape::TongueDown => {
            reveal_strlit("tongueDown");
            reveal_strlit("/tongueDown");
            assert(face_babble_address(shape) =~= seq!['/'] + face_name(shape));
        },
        FaceShape::TongueLeft => {
            reveal_strlit("tongueLeft");
            reveal_strlit("/tongueLeft");
            assert(face_babble_address(shape) =~= seq!['/'] + face_name(shape));
        },
        FaceShape::TongueRight => {
            reveal_strlit("tongueRight");
            reveal_strlit("/tongueRight");
            assert(face_babble_address(shape) =~= seq!['/'] + face_name(shape));
        },
        FaceShape::TongueRoll => {
            reveal_strlit("tongueRoll");
            reveal_strlit("/tongueRoll");
            assert(face_babble_address(shape) =~= seq!['/'] + face_name(shape));
        },
        FaceShape::TongueBendDown => {
            reveal_strlit("tongueBendDown");
            reveal_strlit("/tongueBendDown");
            assert(face_babble_address(shape) =~= seq!['/'] + face_name(shape));
        },
        FaceShape::TongueCurlUp => {
            reveal_strlit("tongueCurlUp");
            reveal_strlit("/tongueCurlUp");
            assert(face_babble_address(shape) =~= seq!['/'] + face_name(shape));
        },
        FaceShape::TongueSquish => {
            reveal_strlit("tongueSquish");
            reveal_strlit("/tongueSquish");
            assert(face_babble_address(shape) =~= seq!['/'] + face_name(shape));
        },
        FaceShape::TongueFlat => {
            reveal_strlit("tongueFlat");
            reveal_strlit("/tongueFlat");
            assert(face_babble_address(shape) =~= seq!['/'] + face_name(shape));
        },
        FaceShape::TongueTwistLeft => {
            reveal_strlit("tongueTwistLeft");
            reveal_strlit("/tongueTwistLeft");
            assert(face_babble_address(shape) =~= seq!['/'] + face_name(shape));
        },
        FaceShape::TongueTwistRight => {
            reveal_strlit("tongueTwistRight");
            reveal_strlit("/tongueTwistRight");
            assert(face_babble_address(shape) =~= seq!['/'] + face_name(shape));
        },
    }
}

impl FaceShape {
    /// Number of face shapes.
    pub fn count() -> (r: usize)
        ensures
            r == face_shape_count(),
    {
        45
    }

    /// Position of the shape in the model output.
    pub fn index(self) -> (r: usize)
        ensures
            r == face_index(self),
            r < face_shape_count(),
    {
        self.table().0
    }

    /// The shape at position `index` of the model output.
    pub fn from_index(index: usize) -> (r: FaceShape)
        requires
            index < face_shape_count(),
        ensures
            r == face_shape_at(index as nat),
            face_index(r) == index,
    {
        if index == 0 {
            FaceShape::CheekPuffLeft
        }
 else if index == 1 {
            FaceShape::CheekPuffRight
        }
 else if index == 2 {
            FaceShape::CheekSuckLeft
        }
 else if index == 3 {
            FaceShape::CheekSuckRight
        }
 else if index == 4 {
            FaceShape::JawOpen
        }
 else if index == 5 {
            FaceShape::JawForward
        }
 else if index == 6 {
            FaceShape::JawLeft
        }
 else if index == 7 {
            FaceShape::JawRight
        }
 else if index == 8 {
            FaceShape::NoseSneerLeft
        }
 else if index == 9 {
            FaceShape::NoseSneerRight
        }
 else if index == 10 {
            FaceShape::MouthFunnel
        }
 else if index == 11 {
            FaceShape::MouthPucker
        }
 else if index == 12 {
            FaceShape::MouthLeft
        }
 else if index == 13 {
            FaceShape::MouthRight
        }
 else if index == 14 {
            FaceShape::MouthRollUpper
        }
 else if index == 15 {
            FaceShape::MouthRollLower
        }
 else if index == 16 {
            FaceShape::MouthShrugUpper
        }
 else if index == 17 {
            FaceShape::MouthShrugLower
        }
 else if index == 18 {
            FaceShape::MouthClose
        }
 else if index == 19 {
            FaceShape::MouthSmileLeft
        }
 else if index == 20 {
            FaceShape::MouthSmileRight
        }
 else if index == 21 {
            FaceShape::MouthFrownLeft
        }
 else if index == 22 {
            FaceShape::MouthFrownRight
        }
 else if index == 23 {
            FaceShape::MouthDimpleLeft
        }
 else if index == 24 {
            FaceShape::MouthDimpleRight
        }
 else if index == 25 {
            FaceShape::MouthUpperUpLeft
        }
 else if index == 26 {
            FaceShape::MouthUpperUpRight
        }
 else if index == 27 {
            FaceShape::MouthLowerDownLeft
        }
 else if index == 28 {
            FaceShape::MouthLowerDownRight
        }
 else if index == 29 {
            FaceShape::MouthPressLeft
        }
 else if index == 30 {
            FaceShape::MouthPressRight
        }
 else if index == 31 {
            FaceShape::MouthStretchLeft
        }
 else if index == 32 {
            FaceShape::MouthStretchRight
        }
 else if index == 33 {
            FaceShape::TongueOut
        }
 else if index == 34 {
            FaceShape::TongueUp
        }
 else if index == 35 {
            FaceShape::TongueDown
        }
 else if index == 36 {
            FaceShape::TongueLeft
        }
 else if index == 37 {
            FaceShape::TongueRight
        }
 else if index == 38 {
            FaceShape::TongueRoll
        }
 else if index == 39 {
            FaceShape::TongueBendDown
        }
 else if index == 40 {
            FaceShape::TongueCurlUp
        }
 else if index == 41 {
            FaceShape::TongueSquish
        }
 else if index == 42 {
            FaceShape::TongueFlat
        }
 else if index == 43 {
            FaceShape::TongueTwistLeft
        }
 else {
            FaceShape::TongueTwistRight
        }
    }

    /// The position of the shape, its name and its Babble address.
    fn table(self) -> (r: (usize, &'static str, &'static str))
        ensures
            (r.0 as nat, r.1@, r.2@) == face_table(self),
    {
        match self {
            Self::CheekPuffLeft => (0, "cheekPuffLeft", "/cheekPuffLeft"),
            Self::CheekPuffRight => (1, "cheekPuffRight", "/cheekPuffRight"),
            Self::CheekSuckLeft => (2, "cheekSuckLeft", "/cheekSuckLeft"),
            Self::CheekSuckRight => (3, "cheekSuckRight", "/cheekSuckRight"),
            Self::JawOpen => (4, "jawOpen", "/jawOpen"),
            Self::JawForward => (5, "jawForward", "/jawForward"),
            Self::JawLeft => (6, "jawLeft", "/jawLeft"),
            Self::JawRight => (7, "jawRight", "/jawRight"),
            Self::NoseSneerLeft => (8, "noseSneerLeft", "/noseSneerLeft"),
            Self::NoseSneerRight => (9, "noseSneerRight", "/noseSneerRight"),
            Self::MouthFunnel => (10, "mouthFunnel", "/mouthFunnel"),
            Self::MouthPucker => (11, "mouthPucker", "/mouthPucker"),
            Self::MouthLeft => (12, "mouthLeft", "/mouthLeft"),
            Self::MouthRight => (13, "mouthRight", "/mouthRight"),
            Self::MouthRollUpper => (14, "mouthRollUpper", "/mouthRollUpper"),
            Self::MouthRollLower => (15, "mouthRollLower", "/mouthRollLower"),
            Self::MouthShrugUpper => (16, "mouthShrugUpper", "/mouthShrugUpper"),
            Self::MouthShrugLower => (17, "mouthShrugLower", "/mouthShrugLower"),
            Self::MouthClose => (18, "mouthClose", "/mouthClose"),
            Self::MouthSmileLeft => (19, "mouthSmileLeft", "/mouthSmileLeft"),
            Self::MouthSmileRight => (20, "mouthSmileRight", "/mouthSmileRight"),
            Self::MouthFrownLeft => (21, "mouthFrownLeft", "/mouthFrownLeft"),
            Self::MouthFrownRight => (22, "mouthFrownRight", "/mouthFrownRight"),
            Self::MouthDimpleLeft => (23, "mouthDimpleLeft", "/mouthDimpleLeft"),
            Self::MouthDimpleRight => (24, "mouthDimpleRight", "/mouthDimpleRight"),
            Self::MouthUpperUpLeft => (25, "mouthUpperUpLeft", "/mouthUpperUpLeft"),
            Self::MouthUpperUpRight => (26, "mouthUpperUpRight", "/mouthUpperUpRight"),
            Self::MouthLowerDownLeft => (27, "mouthLowerDownLeft", "/mouthLowerDownLeft"),
            Self::MouthLowerDownRight => (28, "mouthLowerDownRight", "/mouthLowerDownRight"),
            Self::MouthPressLeft => (29, "mouthPressLeft", "/mouthPressLeft"),
            Self::MouthPressRight => (30, "mouthPressRight", "/mouthPressRight"),
            Self::MouthStretchLeft => (31, "mouthStretchLeft", "/mouthStretchLeft"),
            Self::MouthStretchRight => (32, "mouthStretchRight", "/mouthStretchRight"),
            Self::TongueOut => (33, "tongueOut", "/tongueOut"),
            Self::TongueUp => (34, "tongueUp", "/tongueUp"),
            Self::TongueDown => (35, "tongueDown", "/tongueDown"),
            Self::TongueLeft => (36, "tongueLeft", "/tongueLeft"),
            Self::TongueRight => (37, "tongueRight", "/tongueRight"),
            Self::TongueRoll => (38, "tongueRoll", "/tongueRoll"),
            Self::TongueBendDown => (39, "tongueBendDown", "/tongueBendDown"),
            Self::TongueCurlUp => (40, "tongueCurlUp", "/tongueCurlUp"),
            Self::TongueSquish => (41, "tongueSquish", "/tongueSquish"),
            Self::TongueFlat => (42, "tongueFlat", "/tongueFlat"),
            Self::TongueTwistLeft => (43, "tongueTwistLeft", "/tongueTwistLeft"),
            Self::TongueTwistRight => (44, "tongueTwistRight", "/tongueTwistRight"),
        }
    }

    /// The name of the shape, for example `jawOpen`.
    pub fn name(self) -> (r: &'static str)
        ensures
            r@ == face_name(self),
    {
        self.table().1
    }

    /// The OSC address under which the Babble protocol reports the shape.
    pub fn to_babble(self) -> (r: &'static str)
        ensures
            r@ == face_babble_address(self),
    {
        self.table().2
    }

    /// Parses a shape from its name, for example `jawOpen`.
    pub fn from_str(s: &str) -> (r: Result<FaceShape, ParseFaceShapeError>)
        ensures
            r matches Ok(shape) ==> face_name(shape) == s@,
            r is Err ==> (forall|shape: FaceShape| face_name(shape) != s@),
            forall|shape: FaceShape| #[trigger] face_name(shape) == s@ ==> r == Ok::<FaceShape, ParseFaceShapeError>(shape),
            match r {
                Ok(shape) => face_shape_named(s@) == Some(shape),
                Err(_) => face_shape_named(s@) is None,
            },
    {
        let n = FaceShape::count();
        for i in 0..n
            invariant
                n == face_shape_count(),
                forall|k: nat| k < i ==> face_name(#[trigger] face_shape_at(k)) != s@,
        {
            let shape = FaceShape::from_index(i);
            if str_eq(s, shape.name()) {
                proof {
                    assert forall|x: FaceShape| #[trigger] face_name(x) == s@ implies x == shape by {
                        lemma_face_name_injective(x, shape);
                    }
                }
                return Ok(shape);
            }
        }
        proof {
            assert forall|shape: FaceShape| face_name(shape) != s@ by {
                lemma_face_index_roundtrip(shape);
                assert(face_name(face_shape_at(face_index(shape))) != s@);
            }
        }
        Err(ParseFaceShapeError)
    }
}

/// Parses a face shape by its name, as [`FaceShape::from_str`] does.
impl std::str::FromStr for FaceShape {
    type Err = ParseFaceShapeError;

    fn from_str(s: &str) -> Result<FaceShape, ParseFaceShapeError> {
        FaceShape::from_str(s)
    }
}

} // verus!
