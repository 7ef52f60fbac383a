//! Eye blend shapes.

use vstd::prelude::*;

use crate::text::{name_signature, str_eq};

verus! {

/// An eye blend shape produced by the eye model, in model output order.
#[derive(Copy, Clone, Debug, PartialEq, Eq, Hash, Structural)]
pub enum EyeShape {
    /// Output 0: left eye vertical gaze.
    LeftEyePitch,
    /// Output 1: left eye horizontal gaze.
    LeftEyeYaw,
    /// Output 2: left eyelid.
    LeftEyeLid,
    /// Output 3: left eye widening.
    LeftEyeWiden,
    /// Output 4: left brow.
    LeftEyeBrow,
    /// Output 5: left eye squint.
    LeftEyeSquint,
    /// Output 6: right eye vertical gaze.
    RightEyePitch,
    /// Output 7: right eye horizontal gaze.
    RightEyeYaw,
    /// Output 8: right eyelid.
    RightEyeLid,
    /// Output 9: right eye widening.
    RightEyeWiden,
    /// Output 10: right brow.
    RightEyeBrow,
    /// Output 11: right eye squint.
    RightEyeSquint,
}

/// Number of eye shapes.
pub open spec fn eye_shape_count() -> nat {
    12
}

/// Position of a shape in the model output.
pub open spec fn eye_index(shape: EyeShape) -> nat {
    eye_table(shape).0
}

/// The shape at a position of the model output.
pub open spec fn eye_shape_at(index: nat) -> EyeShape
    recommends
        index < eye_shape_count(),
{
    if index == 0 {
        EyeShape::LeftEyePitch
    }
 else if index == 1 {
        EyeShape::LeftEyeYaw
    }
 else if index == 2 {
        EyeShape::LeftEyeLid
    }
 else if index == 3 {
        EyeShape::LeftEyeWiden
    }
 else if index == 4 {
        EyeShape::LeftEyeBrow
    }
 else if index == 5 {
        EyeShape::LeftEyeSquint
    }
 else if index == 6 {
        EyeShape::RightEyePitch
    }
 else if index == 7 {
        EyeShape::RightEyeYaw
    }
 else if index == 8 {
        EyeShape::RightEyeLid
    }
 else if index == 9 {
        EyeShape::RightEyeWiden
    }
 else if index == 10 {
        EyeShape::RightEyeBrow
    }
 else {
        EyeShape::RightEyeSquint
    }
}

/// The position of a shape in the model output, the name under which the eye
/// model reports it, and the OSC address under which the Babble protocol reports it.
pub open spec fn eye_table(shape: EyeShape) -> (nat, Seq<char>, Seq<char>) {
    match shape {
        EyeShape::LeftEyePitch => (0, "leftEyeY"@, "/leftEyeY"@),
        EyeShape::LeftEyeYaw => (1, "leftEyeX"@, "/leftEyeX"@),
        EyeShape::LeftEyeLid => (2, "leftEyeLid"@, "/leftEyeLid"@),
        EyeShape::LeftEyeWiden => (3, "leftEyeWiden"@, "/leftEyeWiden"@),
        EyeShape::LeftEyeBrow => (4, "leftEyeBrow"@, "/leftEyeBrow"@),
        EyeShape::LeftEyeSquint => (5, "leftEyeSquint"@, "/leftEyeSquint"@),
        EyeShape::RightEyePitch => (6, "rightEyeY"@, "/rightEyeY"@),
        EyeShape::RightEyeYaw => (7, "rightEyeX"@, "/rightEyeX"@),
        EyeShape::RightEyeLid => (8, "rightEyeLid"@, "/rightEyeLid"@),
        EyeShape::RightEyeWiden => (9, "rightEyeWiden"@, "/rightEyeWiden"@),
        EyeShape::RightEyeBrow => (10, "rightEyeBrow"@, "/rightEyeBrow"@),
        EyeShape::RightEyeSquint => (11, "rightEyeSquint"@, "/rightEyeSquint"@),
    }
}

/// The name under which the eye model reports a shape.
pub open spec fn eye_model_name(shape: EyeShape) -> Seq<char> {
    eye_table(shape).1
}

/// The OSC address under which the Babble protocol reports a shape.
pub open spec fn eye_babble_address(shape: EyeShape) -> Seq<char> {
    eye_table(shape).2
}

/// The OSC address under which the ETVR protocol reports a shape, if it reports it at all.
pub open spec fn eye_etvr_address(shape: EyeShape) -> Option<Seq<char>> {
    match shape {
        EyeShape::LeftEyePitch => Some("/avatar/parameters/v2/EyeLeftY"@),
        EyeShape::LeftEyeYaw => Some("/avatar/parameters/v2/EyeLeftX"@),
        EyeShape::LeftEyeLid => Some("/avatar/parameters/v2/EyeLidLeft"@),
        EyeShape::RightEyePitch => Some("/avatar/parameters/v2/EyeRightY"@),
        EyeShape::RightEyeYaw => Some("/avatar/parameters/v2/EyeRightX"@),
        EyeShape::RightEyeLid => Some("/avatar/parameters/v2/EyeLidRight"@),
        _ => None,
    }
}

/// Whether the ETVR protocol reports the shape inverted (`1 - value`): it counts
/// lid closure, not openness.
pub open spec fn eye_etvr_inverted(shape: EyeShape) -> bool {
    shape == EyeShape::LeftEyeLid || shape == EyeShape::RightEyeLid
}

/// The position of a shape in the model output leads back to the shape.
pub proof fn lemma_eye_index_roundtrip(shape: EyeShape)
    ensures
        eye_index(shape) < eye_shape_count(),
        eye_shape_at(eye_index(shape)) == shape,
{
}

/// A short fingerprint of each eye shape's name: its length and three of its
/// characters. No two shapes share one (see [`name_signature`]).
pub open spec fn eye_signature(shape: EyeShape) -> (nat, char, char, char) {
    match shape {
        EyeShape::LeftEyePitch => (8, 'Y', 'E', 'f'),
        EyeShape::LeftEyeYaw => (8, 'X', 'E', 'f'),
        EyeShape::LeftEyeLid => (10, 'd', 'e', 'E'),
        EyeShape::LeftEyeWiden => (12, 'n', 'i', 'e'),
        EyeShape::LeftEyeBrow => (11, 'w', 'B', 'y'),
        EyeShape::LeftEyeSquint => (13, 't', 'u', 'S'),
        EyeShape::RightEyePitch => (9, 'Y', 'E', 'h'),
        EyeShape::RightEyeYaw => (9, 'X', 'E', 'h'),
        EyeShape::RightEyeLid => (11, 'd', 'e', 'E'),
        EyeShape::RightEyeWiden => (13, 'n', 'i', 'e'),
        EyeShape::RightEyeBrow => (12, 'w', 'B', 'y'),
        EyeShape::RightEyeSquint => (14, 't', 'u', 'S'),
    }
}

/// The fingerprint of a shape's name is the one listed for the shape.
proof fn lemma_eye_signature(shape: EyeShape)
    ensures
        name_signature(eye_model_name(shape)) == eye_signature(shape),
{
    match shape {
        EyeShape::LeftEyePitch => reveal_strlit("leftEyeY"),
        EyeShape::LeftEyeYaw => reveal_strlit("leftEyeX"),
        EyeShape::LeftEyeLid => reveal_strlit("leftEyeLid"),
        EyeShape::LeftEyeWiden => reveal_strlit("leftEyeWiden"),
        EyeShape::LeftEyeBrow => reveal_strlit("leftEyeBrow"),
        EyeShape::LeftEyeSquint => reveal_strlit("leftEyeSquint"),
        EyeShape::RightEyePitch => reveal_strlit("rightEyeY"),
        EyeShape::RightEyeYaw => reveal_strlit("rightEyeX"),
        EyeShape::RightEyeLid => reveal_strlit("rightEyeLid"),
        EyeShape::RightEyeWiden => reveal_strlit("rightEyeWiden"),
        EyeShape::RightEyeBrow => reveal_strlit("rightEyeBrow"),
        EyeShape::RightEyeSquint => reveal_strlit("rightEyeSquint"),
    }
}

/// Different eye shapes have different model names, so a model name determines its shape.
pub proof fn lemma_eye_model_name_injective(a: EyeShape, b: EyeShape)
    ensures
        eye_model_name(a) == eye_model_name(b) ==> a == b,
{
    lemma_eye_signature(a);
    lemma_eye_signature(b);
}

/// The prefix of every ETVR address.
pub open spec fn etvr_prefix() -> Seq<char> {
    "/avatar/parameters/v2/"@
}

/// The side of the eye a model name belongs to, as ETVR writes it: model names
/// of the left eye start with `l`.
pub open spec fn etvr_side(name: Seq<char>) -> Seq<char> {
    if name[0] == 'l' {
        "Left"@
    } else {
        "Right"@
    }
}

/// The ETVR address for the shape the eye model names `name`: a lid (a name
/// ending in `Lid`) is `EyeLid` and the side, a gaze axis is `Eye`, the side and
/// the axis letter the model name ends with.
pub open spec fn etvr_address_for(name: Seq<char>) -> Seq<char> {
    if name.last() == 'd' {
        etvr_prefix() + "EyeLid"@ + etvr_side(name)
    } else {
        etvr_prefix() + "Eye"@ + etvr_side(name) + seq![name.last()]
    }
}

/// The Babble address of an eye shape is `/` followed by the name the eye model
/// reports it under.
pub proof fn lemma_eye_babble_address_is_model_name(shape: EyeShape)
    ensures
        eye_babble_address(shape) == seq!['/'] + eye_model_name(shape),
{
    match shape {
        EyeShape::LeftEyePitch => {
            reveal_strlit("/avatar/parameters/v2/");
            reveal_strlit("EyeLid");
            reveal_strlit("Eye");
            reveal_strlit("Left");
            reveal_strlit("Right");
            reveal_strlit("left");
            reveal_strlit("right");
            reveal_strlit("leftEyeY");
            reveal_strlit("/leftEyeY");
            reveal_strlit("/avatar/parameters/v2/EyeLeftY");
            assert(eye_babble_address(shape) =~= seq!['/'] + eye_model_name(shape));
        },
        EyeShape::LeftEyeYaw => {
            reveal_strlit("/avatar/parameters/v2/");
            reveal_strlit("EyeLid");
            reveal_strlit("Eye");
            reveal_strlit("Left");
            reveal_strlit("Right");
            reveal_strlit("left");
            reveal_strlit("right");
            reveal_strlit("leftEyeX");
            reveal_strlit("/leftEyeX");
            reveal_strlit("/avatar/parameters/v2/EyeLeftX");
            assert(eye_babble_address(shape) =~= seq!['/'] + eye_model_name(shape));
        },
        EyeShape::LeftEyeLid => {
            reveal_strlit("/avatar/parameters/v2/");
            reveal_strlit("EyeLid");
            reveal_strlit("Eye");
            reveal_strlit("Left");
            reveal_strlit("Right");
            reveal_strlit("left");
            reveal_strlit("right");
            reveal_strlit("leftEyeLid");
            reveal_strlit("/leftEyeLid");
            reveal_strlit("/avatar/parameters/v2/EyeLidLeft");
            assert(eye_babble_address(shape) =~= seq!['/'] + eye_model_name(shape));
        },
        EyeShape::LeftEyeWiden => {
            reveal_strlit("/avatar/parameters/v2/");
            reveal_strlit("EyeLid");
            reveal_strlit("Eye");
            reveal_strlit("Left");
            reveal_strlit("Right");
            reveal_strlit("left");
            reveal_strlit("right");
            reveal_strlit("leftEyeWiden");
            reveal_strlit("/leftEyeWiden");
            assert(eye_babble_address(shape) =~= seq!['/'] + eye_model_name(shape));
        },
        EyeShape::LeftEyeBrow => {
            reveal_strlit("/avatar/parameters/v2/");
            reveal_strlit("EyeLid");
            reveal_strlit("Eye");
            reveal_strlit("Left");
            reveal_strlit("Right");
            reveal_strlit("left");
            reveal_strlit("right");
            reveal_strlit("leftEyeBrow");
            reveal_strlit("/leftEyeBrow");
            assert(eye_babble_address(shape) =~= seq!['/'] + eye_model_name(shape));
        },
        EyeShape::LeftEyeSquint => {
            reveal_strlit("/avatar/parameters/v2/");
            reveal_strlit("EyeLid");
            reveal_strlit("Eye");
            reveal_strlit("Left");
            reveal_strlit("Right");
            reveal_strlit("left");
            reveal_strlit("right");
            reveal_strlit("leftEyeSquint");
            reveal_strlit("/leftEyeSquint");
            assert(eye_babble_address(shape) =~= seq!['/'] + eye_model_name(shape));
        },
        EyeShape::RightEyePitch => {
            reveal_strlit("/avatar/parameters/v2/");
            reveal_strlit("EyeLid");
            reveal_strlit("Eye");
            reveal_strlit("Left");
            reveal_strlit("Right");
            reveal_strlit("left");
            reveal_strlit("right");
            reveal_strlit("rightEyeY");
            reveal_strlit("/rightEyeY");
            reveal_strlit("/avatar/parameters/v2/EyeRightY");
            assert(eye_babble_address(shape) =~= seq!['/'] + eye_model_name(shape));
        },
        EyeShape::RightEyeYaw => {
            reveal_strlit("/avatar/parameters/v2/");
            reveal_strlit("EyeLid");
            reveal_strlit("Eye");
            reveal_strlit("Left");
            reveal_strlit("Right");
            reveal_strlit("left");
            reveal_strlit("right");
            reveal_strlit("rightEyeX");
            reveal_strlit("/rightEyeX");
            reveal_strlit("/avatar/parameters/v2/EyeRightX");
            assert(eye_babble_address(shape) =~= seq!['/'] + eye_model_name(shape));
        },
        EyeShape::RightEyeLid => {
            reveal_strlit("/avatar/parameters/v2/");
            reveal_strlit("EyeLid");
            reveal_strlit("Eye");
            reveal_strlit("Left");
            reveal_strlit("Right");
            reveal_strlit("left");
            reveal_strlit("right");
            reveal_strlit("rightEyeLid");
            reveal_strlit("/rightEyeLid");
            reveal_strlit("/avatar/parameters/v2/EyeLidRight");
            assert(eye_babble_address(shape) =~= seq!['/'] + eye_model_name(shape));
        },
        EyeShape::RightEyeWiden => {
            reveal_strlit("/avatar/parameters/v2/");
            reveal_strlit("EyeLid");
            reveal_strlit("Eye");
            reveal_strlit("Left");
            reveal_strlit("Right");
            reveal_strlit("left");
            reveal_strlit("right");
            reveal_strlit("rightEyeWiden");
            reveal_strlit("/rightEyeWiden");
            assert(eye_babble_address(shape) =~= seq!['/'] + eye_model_name(shape));
        },
        EyeShape::RightEyeBrow => {
            reveal_strlit("/avatar/parameters/v2/");
            reveal_strlit("EyeLid");
            reveal_strlit("Eye");
            reveal_strlit("Left");
            reveal_strlit("Right");
            reveal_strlit("left");
            reveal_strlit("right");
            reveal_strlit("rightEyeBrow");
            reveal_strlit("/rightEyeBrow");
            assert(eye_babble_address(shape) =~= seq!['/'] + eye_model_name(shape));
        },
        EyeShape::RightEyeSquint => {
            reveal_strlit("/avatar/parameters/v2/");
            reveal_strlit("EyeLid");
            reveal_strlit("Eye");
            reveal_strlit("Left");
            reveal_strlit("Right");
            reveal_strlit("left");
            reveal_strlit("right");
            reveal_strlit("rightEyeSquint");
            reveal_strlit("/rightEyeSquint");
            assert(eye_babble_address(shape) =~= seq!['/'] + eye_model_name(shape));
        },
    }
}

/// The model names come in mirrored pairs: the shape six places after a left
/// shape is the same shape of the right eye, whose name has `right` in place of
/// `left`.
pub proof fn lemma_eye_model_names_mirror(shape: EyeShape)
    requires
        eye_index(shape) < 6,
    ensures
        eye_model_name(shape).subrange(0, 4) == "left"@,
        eye_model_name(eye_shape_at(eye_index(shape) + 6)) == "right"@ + eye_model_name(shape).skip(4),
{
    match shape {
        EyeShape::LeftEyePitch => {
            reveal_strlit("/avatar/parameters/v2/");
            reveal_strlit("EyeLid");
            reveal_strlit("Eye");
            reveal_strlit("Left");
            reveal_strlit("Right");
            reveal_strlit("left");
            reveal_strlit("right");
            reveal_strlit("leftEyeY");
            reveal_strlit("/leftEyeY");
            reveal_strlit("/avatar/parameters/v2/EyeLeftY");
            reveal_strlit("rightEyeY");
            if eye_index(shape) < 6 {
                assert(eye_model_name(shape).subrange(0, 4) =~= "left"@);
                assert(eye_model_name(eye_shape_at(eye_index(shape) + 6)) =~= "right"@ + eye_model_name(shape).skip(4));
            }
        },
        EyeShape::LeftEyeYaw => {
            reveal_strlit("/avatar/parameters/v2/");
            reveal_strlit("EyeLid");
            reveal_strlit("Eye");
            reveal_strlit("Left");
            reveal_strlit("Right");
            reveal_strlit("left");
            reveal_strlit("right");
            reveal_strlit("leftEyeX");
            reveal_strlit("/leftEyeX");
            reveal_strlit("/avatar/parameters/v2/EyeLeftX");
            reveal_strlit("rightEyeX");
            if eye_index(shape) < 6 {
                assert(eye_model_name(shape).subrange(0, 4) =~= "left"@);
                assert(eye_model_name(eye_shape_at(eye_index(shape) + 6)) =~= "right"@ + eye_model_name(shape).skip(4));
            }
        },
        EyeShape::LeftEyeLid => {
            reveal_strlit("/avatar/parameters/v2/");
            reveal_strlit("EyeLid");
            reveal_strlit("Eye");
            reveal_strlit("Left");
            reveal_strlit("Right");
            reveal_strlit("left");
            reveal_strlit("right");
            reveal_strlit("leftEyeLid");
            reveal_strlit("/leftEyeLid");
            reveal_strlit("/avatar/parameters/v2/EyeLidLeft");
            reveal_strlit("rightEyeLid");
            if eye_index(shape) < 6 {
                assert(eye_model_name(shape).subrange(0, 4) =~= "left"@);
                assert(eye_model_name(eye_shape_at(eye_index(shape) + 6)) =~= "right"@ + eye_model_name(shape).skip(4));
            }
        },
        EyeShape::LeftEyeWiden => {
            reveal_strlit("/avatar/parameters/v2/");
            reveal_strlit("EyeLid");
            reveal_strlit("Eye");
            reveal_strlit("Left");
            reveal_strlit("Right");
            reveal_strlit("left");
            reveal_strlit("right");
            reveal_strlit("leftEyeWiden");
            reveal_strlit("/leftEyeWiden");
            reveal_strlit("rightEyeWiden");
            if eye_index(shape) < 6 {
                assert(eye_model_name(shape).subrange(0, 4) =~= "left"@);
                assert(eye_model_name(eye_shape_at(eye_index(shape) + 6)) =~= "right"@ + eye_model_name(shape).skip(4));
            }
        },
        EyeShape::LeftEyeBrow => {
            reveal_strlit("/avatar/parameters/v2/");
            reveal_strlit("EyeLid");
            reveal_strlit("Eye");
            reveal_strlit("Left");
            reveal_strlit("Right");
            reveal_strlit("left");
            reveal_strlit("right");
            reveal_strlit("leftEyeBrow");
            reveal_strlit("/leftEyeBrow");
            reveal_strlit("rightEyeBrow");
            if eye_index(shape) < 6 {
                assert(eye_model_name(shape).subrange(0, 4) =~= "left"@);
                assert(eye_model_name(eye_shape_at(eye_index(shape) + 6)) =~= "right"@ + eye_model_name(shape).skip(4));
            }
        },
        EyeShape::LeftEyeSquint => {
            reveal_strlit("/avatar/parameters/v2/");
            reveal_strlit("EyeLid");
            reveal_strlit("Eye");
            reveal_strlit("Left");
            reveal_strlit("Right");
            reveal_strlit("left");
            reveal_strlit("right");
            reveal_strlit("leftEyeSquint");
            reveal_strlit("/leftEyeSquint");
            reveal_strlit("rightEyeSquint");
            if eye_index(shape) < 6 {
                assert(eye_model_name(shape).subrange(0, 4) =~= "left"@);
                assert(eye_model_name(eye_shape_at(eye_index(shape) + 6)) =~= "right"@ + eye_model_name(shape).skip(4));
            }
        },
        EyeShape::RightEyePitch => {
            reveal_strlit("/avatar/parameters/v2/");
            reveal_strlit("EyeLid");
            reveal_strlit("Eye");
            reveal_strlit("Left");
            reveal_strlit("Right");
            reveal_strlit("left");
            reveal_strlit("right");
            reveal_strlit("rightEyeY");
            reveal_strlit("/rightEyeY");
            reveal_strlit("/avatar/parameters/v2/EyeRightY");
            if eye_index(shape) < 6 {
                assert(eye_model_name(shape).subrange(0, 4) =~= "left"@);
                assert(eye_model_name(eye_shape_at(eye_index(shape) + 6)) =~= "right"@ + eye_model_name(shape).skip(4));
            }
        },
        EyeShape::RightEyeYaw => {
            reveal_strlit("/avatar/parameters/v2/");
            reveal_strlit("EyeLid");
            reveal_strlit("Eye");
            reveal_strlit("Left");
            reveal_strlit("Right");
            reveal_strlit("left");
            reveal_strlit("right");
            reveal_strlit("rightEyeX");
            reveal_strlit("/rightEyeX");
            reveal_strlit("/avatar/parameters/v2/EyeRightX");
            if eye_index(shape) < 6 {
                assert(eye_model_name(shape).subrange(0, 4) =~= "left"@);
                assert(eye_model_name(eye_shape_at(eye_index(shape) + 6)) =~= "right"@ + eye_model_name(shape).skip(4));
            }
        },
        EyeShape::RightEyeLid => {
            reveal_strlit("/avatar/parameters/v2/");
            reveal_strlit("EyeLid");
            reveal_strlit("Eye");
            reveal_strlit("Left");
            reveal_strlit("Right");
            reveal_strlit("left");
            reveal_strlit("right");
            reveal_strlit("rightEyeLid");
            reveal_strlit("/rightEyeLid");
            reveal_strlit("/avatar/parameters/v2/EyeLidRight");
            if eye_index(shape) < 6 {
                assert(eye_model_name(shape).subrange(0, 4) =~= "left"@);
                assert(eye_model_name(eye_shape_at(eye_index(shape) + 6)) =~= "right"@ + eye_model_name(shape).skip(4));
            }
        },
        EyeShape::RightEyeWiden => {
            reveal_strlit("/avatar/parameters/v2/");
            reveal_strlit("EyeLid");
            reveal_strlit("Eye");
            reveal_strlit("Left");
            reveal_strlit("Right");
            reveal_strlit("left");
            reveal_strlit("right");
            reveal_strlit("rightEyeWiden");
            reveal_strlit("/rightEyeWiden");
            if eye_index(shape) < 6 {
                assert(eye_model_name(shape).subrange(0, 4) =~= "left"@);
                assert(eye_model_name(eye_shape_at(eye_index(shape) + 6)) =~= "right"@ + eye_model_name(shape).skip(4));
            }
        },
        EyeShape::RightEyeBrow => {
            reveal_strlit("/avatar/parameters/v2/");
            reveal_strlit("EyeLid");
            reveal_strlit("Eye");
            reveal_strlit("Left");
            reveal_strlit("Right");
            reveal_strlit("left");
            reveal_strlit("right");
            reveal_strlit("rightEyeBrow");
            reveal_strlit("/rightEyeBrow");
            if eye_index(shape) < 6 {
                assert(eye_model_name(shape).subrange(0, 4) =~= "left"@);
                assert(eye_model_name(eye_shape_at(eye_index(shape) + 6)) =~= "right"@ + eye_model_name(shape).skip(4));
            }
        },
        EyeShape::RightEyeSquint => {
            reveal_strlit("/avatar/parameters/v2/");
            reveal_strlit("EyeLid");
            reveal_strlit("Eye");
            reveal_strlit("Left");
            reveal_strlit("Right");
            reveal_strlit("left");
            reveal_strlit("right");
            reveal_strlit("rightEyeSquint");
            reveal_strlit("/rightEyeSquint");
            if eye_index(shape) < 6 {
                assert(eye_model_name(shape).subrange(0, 4) =~= "left"@);
                assert(eye_model_name(eye_shape_at(eye_index(shape) + 6)) =~= "right"@ + eye_model_name(shape).skip(4));
            }
        },
    }
}

/// ETVR reports exactly the gaze axes and the lids (the shapes whose model names
/// end in `X`, `Y` or `Lid`), each at the address made of its side and its axis
/// (see [`etvr_address_for`]).
pub proof fn lemma_etvr_address_names_side_and_axis(shape: EyeShape)
    ensures
        eye_etvr_address(shape) is Some <==> (eye_model_name(shape).last() == 'X' || eye_model_name(
            shape,
        ).last() == 'Y' || eye_model_name(shape).last() == 'd'),
        eye_etvr_address(shape) matches Some(address) ==> address == etvr_address_for(eye_model_name(shape)),
{
    match shape {
        EyeShape::LeftEyePitch => {
            reveal_strlit("/avatar/parameters/v2/");
            reveal_strlit("EyeLid");
            reveal_strlit("Eye");
            reveal_strlit("Left");
            reveal_strlit("Right");
            reveal_strlit("left");
            reveal_strlit("right");
            reveal_strlit("leftEyeY");
            reveal_strlit("/leftEyeY");
            reveal_strlit("/avatar/parameters/v2/EyeLeftY");
            if let Some(address) = eye_etvr_address(shape) {
                assert(address =~= etvr_address_for(eye_model_name(shape)));
            }
        },
        EyeShape::LeftEyeYaw => {
            reveal_strlit("/avatar/parameters/v2/");
            reveal_strlit("EyeLid");
            reveal_strlit("Eye");
            reveal_strlit("Left");
            reveal_strlit("Right");
            reveal_strlit("left");
            reveal_strlit("right");
            reveal_strlit("leftEyeX");
            reveal_strlit("/leftEyeX");
            reveal_strlit("/avatar/parameters/v2/EyeLeftX");
            if let Some(address) = eye_etvr_address(shape) {
                assert(address =~= etvr_address_for(eye_model_name(shape)));
            }
        },
        EyeShape::LeftEyeLid => {
            reveal_strlit("/avatar/parameters/v2/");
            reveal_strlit("EyeLid");
            reveal_strlit("Eye");
            reveal_strlit("Left");
            reveal_strlit("Right");
            reveal_strlit("left");
            reveal_strlit("right");
            reveal_strlit("leftEyeLid");
            reveal_strlit("/leftEyeLid");
            reveal_strlit("/avatar/parameters/v2/EyeLidLeft");
            if let Some(address) = eye_etvr_address(shape) {
                assert(address =~= etvr_address_for(eye_model_name(shape)));
            }
        },
        EyeShape::LeftEyeWiden => {
            reveal_strlit("/avatar/parameters/v2/");
            reveal_strlit("EyeLid");
            reveal_strlit("Eye");
            reveal_strlit("Left");
            reveal_strlit("Right");
            reveal_strlit("left");
            reveal_strlit("right");
            reveal_strlit("leftEyeWiden");
            reveal_strlit("/leftEyeWiden");
            if let Some(address) = eye_etvr_address(shape) {
                assert(address =~= etvr_address_for(eye_model_name(shape)));
            }
        },
        EyeShape::LeftEyeBrow => {
            reveal_strlit("/avatar/parameters/v2/");
            reveal_strlit("EyeLid");
            reveal_strlit("Eye");
            reveal_strlit("Left");
            reveal_strlit("Right");
            reveal_strlit("left");
            reveal_strlit("right");
            reveal_strlit("leftEyeBrow");
            reveal_strlit("/leftEyeBrow");
            if let Some(address) = eye_etvr_address(shape) {
                assert(address =~= etvr_address_for(eye_model_name(shape)));
            }
        },
        EyeShape::LeftEyeSquint => {
            reveal_strlit("/avatar/parameters/v2/");
            reveal_strlit("EyeLid");
            reveal_strlit("Eye");
            reveal_strlit("Left");
            reveal_strlit("Right");
            reveal_strlit("left");
            reveal_strlit("right");
            reveal_strlit("leftEyeSquint");
            reveal_strlit("/leftEyeSquint");
            if let Some(address) = eye_etvr_address(shape) {
                assert(address =~= etvr_address_for(eye_model_name(shape)));
            }
        },
        EyeShape::RightEyePitch => {
            reveal_strlit("/avatar/parameters/v2/");
            reveal_strlit("EyeLid");
            reveal_strlit("Eye");
            reveal_strlit("Left");
            reveal_strlit("Right");
            reveal_strlit("left");
            reveal_strlit("right");
            reveal_strlit("rightEyeY");
            reveal_strlit("/rightEyeY");
            reveal_strlit("/avatar/parameters/v2/EyeRightY");
            if let Some(address) = eye_etvr_address(shape) {
                assert(address =~= etvr_address_for(eye_model_name(shape)));
            }
        },
        EyeShape::RightEyeYaw => {
            reveal_strlit("/avatar/parameters/v2/");
            reveal_strlit("EyeLid");
            reveal_strlit("Eye");
            reveal_strlit("Left");
            reveal_strlit("Right");
            reveal_strlit("left");
            reveal_strlit("right");
            reveal_strlit("rightEyeX");
            reveal_strlit("/rightEyeX");
            reveal_strlit("/avatar/parameters/v2/EyeRightX");
            if let Some(address) = eye_etvr_address(shape) {
                assert(address =~= etvr_address_for(eye_model_name(shape)));
            }
        },
        EyeShape::RightEyeLid => {
            reveal_strlit("/avatar/parameters/v2/");
            reveal_strlit("EyeLid");
            reveal_strlit("Eye");
            reveal_strlit("Left");
            reveal_strlit("Right");
            reveal_strlit("left");
            reveal_strlit("right");
            reveal_strlit("rightEyeLid");
            reveal_strlit("/rightEyeLid");
            reveal_strlit("/avatar/parameters/v2/EyeLidRight");
            if let Some(address) = eye_etvr_address(shape) {
                assert(address =~= etvr_address_for(eye_model_name(shape)));
            }
        },
        EyeShape::RightEyeWiden => {
            reveal_strlit("/avatar/parameters/v2/");
            reveal_strlit("EyeLid");
            reveal_strlit("Eye");
            reveal_strlit("Left");
            reveal_strlit("Right");
            reveal_strlit("left");
            reveal_strlit("right");
            reveal_strlit("rightEyeWiden");
            reveal_strlit("/rightEyeWiden");
            if let Some(address) = eye_etvr_address(shape) {
                assert(address =~= etvr_address_for(eye_model_name(shape)));
            }
        },
        EyeShape::RightEyeBrow => {
            reveal_strlit("/avatar/parameters/v2/");
            reveal_strlit("EyeLid");
            reveal_strlit("Eye");
            reveal_strlit("Left");
            reveal_strlit("Right");
            reveal_strlit("left");
            reveal_strlit("right");
            reveal_strlit("rightEyeBrow");
            reveal_strlit("/rightEyeBrow");
            if let Some(address) = eye_etvr_address(shape) {
                assert(address =~= etvr_address_for(eye_model_name(shape)));
            }
        },
        EyeShape::RightEyeSquint => {
            reveal_strlit("/avatar/parameters/v2/");
            reveal_strlit("EyeLid");
            reveal_strlit("Eye");
            reveal_strlit("Left");
            reveal_strlit("Right");
            reveal_strlit("left");
            reveal_strlit("right");
            reveal_strlit("rightEyeSquint");
            reveal_strlit("/rightEyeSquint");
            if let Some(address) = eye_etvr_address(shape) {
                assert(address =~= etvr_address_for(eye_model_name(shape)));
            }
        },
    }
}

/// A fingerprint of each ETVR address: its length and its last character. No
/// two reported shapes share one.
pub open spec fn etvr_signature(shape: EyeShape) -> (nat, char) {
    match shape {
        EyeShape::LeftEyePitch => (30, 'Y'),
        EyeShape::LeftEyeYaw => (30, 'X'),
        EyeShape::LeftEyeLid => (32, 't'),
        EyeShape::RightEyePitch => (31, 'Y'),
        EyeShape::RightEyeYaw => (31, 'X'),
        EyeShape::RightEyeLid => (33, 't'),
        _ => (0, ' '),
    }
}

proof fn lemma_etvr_signature(shape: EyeShape)
    ensures
        eye_etvr_address(shape) matches Some(address) ==> (address.len(), address.last()) == etvr_signature(shape),
{
    match shape {
        EyeShape::LeftEyePitch => {
            reveal_strlit("/avatar/parameters/v2/EyeLeftY");
        },
        EyeShape::LeftEyeYaw => {
            reveal_strlit("/avatar/parameters/v2/EyeLeftX");
        },
        EyeShape::LeftEyeLid => {
            reveal_strlit("/avatar/parameters/v2/EyeLidLeft");
        },
        EyeShape::RightEyePitch => {
            reveal_strlit("/avatar/parameters/v2/EyeRightY");
        },
        EyeShape::RightEyeYaw => {
            reveal_strlit("/avatar/parameters/v2/EyeRightX");
        },
        EyeShape::RightEyeLid => {
            reveal_strlit("/avatar/parameters/v2/EyeLidRight");
        },
        _ => {},
    }
}

/// No two eye shapes share an ETVR address.
pub proof fn lemma_etvr_address_injective(a: EyeShape, b: EyeShape)
    requires
        eye_etvr_address(a) is Some,
        eye_etvr_address(a) == eye_etvr_address(b),
    ensures
        a == b,
{
    lemma_etvr_signature(a);
    lemma_etvr_signature(b);
}

impl EyeShape {
    /// Number of eye shapes.
    pub fn count() -> (r: usize)
        ensures
            r == eye_shape_count(),
    {
        12
    }

    /// Position of the shape in the model output.
    pub fn index(self) -> (r: usize)
        ensures
            r == eye_index(self),
            r < eye_shape_count(),
    {
        self.table().0
    }

    /// The shape at position `index` of the model output.
    pub fn from_index(index: usize) -> (r: EyeShape)
        requires
            index < eye_shape_count(),
        ensures
            r == eye_shape_at(index as nat),
            eye_index(r) == index,
    {
        if index == 0 {
            EyeShape::LeftEyePitch
        }
 else if index == 1 {
            EyeShape::LeftEyeYaw
        }
 else if index == 2 {
            EyeShape::LeftEyeLid
        }
 else if index == 3 {
            EyeShape::LeftEyeWiden
        }
 else if index == 4 {
            EyeShape::LeftEyeBrow
        }
 else if index == 5 {
            EyeShape::LeftEyeSquint
        }
 else if index == 6 {
            EyeShape::RightEyePitch
        }
 else if index == 7 {
            EyeShape::RightEyeYaw
        }
 else if index == 8 {
            EyeShape::RightEyeLid
        }
 else if index == 9 {
            EyeShape::RightEyeWiden
        }
 else if index == 10 {
            EyeShape::RightEyeBrow
        }
 else {
            EyeShape::RightEyeSquint
        }
    }

    /// The position of the shape, its model name and its Babble address.
    fn table(self) -> (r: (usize, &'static str, &'static str))
        ensures
            (r.0 as nat, r.1@, r.2@) == eye_table(self),
    {
        match self {
            Self::LeftEyePitch => (0, "leftEyeY", "/leftEyeY"),
            Self::LeftEyeYaw => (1, "leftEyeX", "/leftEyeX"),
            Self::LeftEyeLid => (2, "leftEyeLid", "/leftEyeLid"),
            Self::LeftEyeWiden => (3, "leftEyeWiden", "/leftEyeWiden"),
            Self::LeftEyeBrow => (4, "leftEyeBrow", "/leftEyeBrow"),
            Self::LeftEyeSquint => (5, "leftEyeSquint", "/leftEyeSquint"),
            Self::RightEyePitch => (6, "rightEyeY", "/rightEyeY"),
            Self::RightEyeYaw => (7, "rightEyeX", "/rightEyeX"),
            Self::RightEyeLid => (8, "rightEyeLid", "/rightEyeLid"),
            Self::RightEyeWiden => (9, "rightEyeWiden", "/rightEyeWiden"),
            Self::RightEyeBrow => (10, "rightEyeBrow", "/rightEyeBrow"),
            Self::RightEyeSquint => (11, "rightEyeSquint", "/rightEyeSquint"),
        }
    }

    /// Maps a name reported by the eye model to its shape.
    pub fn from_model_name(name: &str) -> (r: Option<EyeShape>)
        ensures
            r matches Some(shape) ==> eye_model_name(shape) == name@,
            r is None ==> (forall|shape: EyeShape| eye_model_name(shape) != name@),
            forall|shape: EyeShape| #[trigger] eye_model_name(shape) == name@ ==> r == Some(shape),
    {
        let n = EyeShape::count();
        for i in 0..n
            invariant
                n == eye_shape_count(),
                forall|k: nat| k < i ==> eye_model_name(#[trigger] eye_shape_at(k)) != name@,
        {
            let shape = EyeShape::from_index(i);
            if str_eq(name, shape.table().1) {
                proof {
                    assert forall|x: EyeShape| #[trigger] eye_model_name(x) == name@ implies x == shape by {
                        lemma_eye_model_name_injective(x, shape);
                    }
                }
                return Some(shape);
            }
        }
        proof {
            assert forall|shape: EyeShape| eye_model_name(shape) != name@ by {
                lemma_eye_index_roundtrip(shape);
                assert(eye_model_name(eye_shape_at(eye_index(shape))) != name@);
            }
        }
        None
    }

    /// The OSC address under which the ETVR protocol reports the shape, if any.
    pub fn to_etvr(self) -> (r: Option<&'static str>)
        ensures
            match r {
                Some(s) => eye_etvr_address(self) == Some(s@),
                None => eye_etvr_address(self) is None,
            },
    {
        match self {
            EyeShape::LeftEyePitch => Some("/avatar/parameters/v2/EyeLeftY"),
            EyeShape::LeftEyeYaw => Some("/avatar/parameters/v2/EyeLeftX"),
            EyeShape::LeftEyeLid => Some("/avatar/parameters/v2/EyeLidLeft"),
            EyeShape::RightEyePitch => Some("/avatar/parameters/v2/EyeRightY"),
            EyeShape::RightEyeYaw => Some("/avatar/parameters/v2/EyeRightX"),
            EyeShape::RightEyeLid => Some("/avatar/parameters/v2/EyeLidRight"),
            _ => None,
        }
    }

    /// The OSC address under which the Babble protocol reports the shape.
    pub fn to_babble(self) -> (r: &'static str)
        ensures
            r@ == eye_babble_address(self),
    {
        self.table().2
    }

    /// Whether the ETVR protocol reports the shape inverted (`1 - value`).
    pub fn is_etvr_inverted(self) -> (r: bool)
        ensures
            r == eye_etvr_inverted(self),
    {
        match self {
            EyeShape::LeftEyeLid | EyeShape::RightEyeLid => true,
            _ => false,
        }
    }
}

} // verus!
