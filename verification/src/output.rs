//! OSC output: the messages the Babble and ETVR protocols send for tracked weights.
//!
//! Weights are `f32` values carried by their bit pattern.

use vstd::prelude::*;

use crate::calibration::eye::{eye_etvr_address, EyeShape};
use crate::calibration::face::{face_babble_address, FaceShape};
use crate::osc::{OscArg, OscArgView, OscMessage, OscMessageView};

verus! {

/// Errors of the OSC transport.
#[derive(Clone, Debug, PartialEq, Eq, Structural)]
pub enum TransportError {
    /// The UDP socket could not be bound.
    Bind,
    /// The destination address could not be resolved.
    Resolve,
}

/// The message that reports one weight at `addr`.
pub open spec fn weight_message(addr: Seq<char>, bits: u32) -> OscMessageView {
    OscMessageView { addr, args: seq![OscArgView::Float(bits)] }
}

/// The messages the Babble protocol sends for face weights: one per weight, in order.
pub open spec fn babble_face_messages(weights: Seq<(FaceShape, u32)>) -> Seq<OscMessageView> {
    weights.map_values(|w: (FaceShape, u32)| weight_message(face_babble_address(w.0), w.1))
}

/// Each Babble message reports its own weight: message `i` is at the address of
/// weight `i`'s shape and carries weight `i`'s value, and nothing else.
pub proof fn lemma_babble_messages_carry_their_weights(weights: Seq<(FaceShape, u32)>)
    ensures
        babble_face_messages(weights).len() == weights.len(),
        forall|i: int|
            0 <= i < weights.len() ==> #[trigger] babble_face_messages(weights)[i].addr == face_babble_address(
                weights[i].0,
            ) && babble_face_messages(weights)[i].args == seq![OscArgView::Float(weights[i].1)],
{
}

proof fn lemma_messages_report_weights(ms: Seq<OscMessage>, weights: Seq<(FaceShape, u32)>)
    requires
        messages_view(ms) == babble_face_messages(weights),
    ensures
        ms.len() == weights.len(),
        forall|i: int|
            0 <= i < weights.len() ==> #[trigger] ms[i]@.addr == face_babble_address(weights[i].0)
                && ms[i]@.args == seq![OscArgView::Float(weights[i].1)],
{
    lemma_babble_messages_carry_their_weights(weights);
    assert(messages_view(ms).len() == ms.len());
    assert forall|i: int| 0 <= i < weights.len() implies #[trigger] ms[i]@.addr == face_babble_address(
        weights[i].0,
    ) && ms[i]@.args == seq![OscArgView::Float(weights[i].1)] by {
        assert(messages_view(ms)[i] == ms[i]@);
    }
}

/// The messages the ETVR protocol sends for eye weights: one per weight of a
/// shape that ETVR reports, in order.
pub open spec fn etvr_eye_messages(weights: Seq<(EyeShape, u32)>) -> Seq<OscMessageView>
    decreases weights.len(),
{
    if weights.len() == 0 {
        Seq::empty()
    } else {
        let rest = etvr_eye_messages(weights.drop_last());
        let (shape, bits) = weights.last();
        match eye_etvr_address(shape) {
            Some(addr) => rest.push(weight_message(addr, bits)),
            None => rest,
        }
    }
}

/// Whether the ETVR protocol reports a weight's shape.
pub open spec fn etvr_reports(w: (EyeShape, u32)) -> bool {
    eye_etvr_address(w.0) is Some
}

/// The weights whose shapes ETVR reports, in order.
pub open spec fn etvr_reported(weights: Seq<(EyeShape, u32)>) -> Seq<(EyeShape, u32)>
    decreases weights.len(),
{
    if weights.len() == 0 {
        seq![]
    } else {
        let prev = etvr_reported(weights.drop_last());
        if etvr_reports(weights.last()) {
            prev.push(weights.last())
        } else {
            prev
        }
    }
}

/// The ETVR messages are those of the weights whose shapes ETVR reports, kept
/// in order: each at its shape's ETVR address, carrying that weight's own value
/// and nothing else.
pub proof fn lemma_etvr_messages_carry_their_weights(weights: Seq<(EyeShape, u32)>)
    ensures
        etvr_eye_messages(weights).len() == etvr_reported(weights).len(),
        forall|k: int|
            0 <= k < etvr_eye_messages(weights).len() ==> {
                let w = #[trigger] etvr_reported(weights)[k];
                &&& eye_etvr_address(w.0) == Some(etvr_eye_messages(weights)[k].addr)
                &&& etvr_eye_messages(weights)[k].args == seq![OscArgView::Float(w.1)]
            },
    decreases weights.len(),
{
    if weights.len() > 0 {
        lemma_etvr_messages_carry_their_weights(weights.drop_last());
        let kept = etvr_reported(weights);
        let prev = etvr_reported(weights.drop_last());
        assert(kept == if etvr_reports(weights.last()) {
            prev.push(weights.last())
        } else {
            prev
        });
        assert forall|k: int| 0 <= k < etvr_eye_messages(weights).len() implies {
            let w = #[trigger] kept[k];
            &&& eye_etvr_address(w.0) == Some(etvr_eye_messages(weights)[k].addr)
            &&& etvr_eye_messages(weights)[k].args == seq![OscArgView::Float(w.1)]
        } by {
            if k < prev.len() {
                assert(kept[k] == prev[k]);
                assert(etvr_eye_messages(weights)[k] == etvr_eye_messages(weights.drop_last())[k]);
            }
        }
    }
}

/// The views of a sequence of messages.
pub open spec fn messages_view(ms: Seq<OscMessage>) -> Seq<OscMessageView> {
    ms.map_values(|m: OscMessage| m@)
}

fn weight_message_for(addr: &str, bits: u32) -> (r: OscMessage)
    ensures
        r@ == weight_message(addr@, bits),
{
    let args = vec![OscArg::Float(bits)];
    let m = OscMessage { addr: addr.to_string(), args };
    assert(m@.args =~= seq![OscArgView::Float(bits)]);
    m
}

/// Reports weights with the Babble protocol.
pub struct BabbleEmitter {}

impl BabbleEmitter {
    pub fn new() -> (r: BabbleEmitter) {
        BabbleEmitter {}
    }

    /// The messages that report face weights, one per weight, each at the
    /// shape's Babble address.
    pub fn face_messages(&self, weights: &[(FaceShape, u32)]) -> (messages: Vec<OscMessage>)
        ensures
            messages_view(messages@) == babble_face_messages(weights@),
            messages@.len() == weights@.len(),
            forall|i: int|
                0 <= i < weights@.len() ==> (#[trigger] messages@[i])@.addr == face_babble_address(weights@[i].0)
                    && messages@[i]@.args.len() == 1 && messages@[i]@.args[0] == OscArgView::Float(
                    weights@[i].1,
                ),
    {
        let mut r: Vec<OscMessage> = Vec::new();
        for i in 0..weights.len()
            invariant
                messages_view(r@) == babble_face_messages(weights@.take(i as int)),
        {
            let (shape, bits) = weights[i];
            let m = weight_message_for(shape.to_babble(), bits);
            let ghost old_r = r@;
            r.push(m);
            assert(messages_view(r@) =~= messages_view(old_r).push(m@));
            assert(weights@.take(i + 1) =~= weights@.take(i as int).push(weights@[i as int]));
            assert(babble_face_messages(weights@.take(i + 1)) =~= babble_face_messages(
                weights@.take(i as int),
            ).push(m@));
        }
        assert(weights@.take(weights@.len() as int) =~= weights@);
        proof {
            lemma_messages_report_weights(r@, weights@);
        }
        r
    }
}

/// Reports weights with the ETVR protocol.
pub struct EtvrEmitter {}

impl EtvrEmitter {
    pub fn new() -> (r: EtvrEmitter) {
        EtvrEmitter {}
    }

    /// The messages that report eye weights: one per weight of a shape that
    /// ETVR reports, at its ETVR address. The values are taken as ETVR reports
    /// them (lids as closure, see [`EyeShape::is_etvr_inverted`]).
    pub fn eye_messages(&self, weights: &[(EyeShape, u32)]) -> (r: Vec<OscMessage>)
        ensures
            messages_view(r@) == etvr_eye_messages(weights@),
    {
        let mut r: Vec<OscMessage> = Vec::new();
        for i in 0..weights.len()
            invariant
                messages_view(r@) == etvr_eye_messages(weights@.take(i as int)),
        {
            let (shape, bits) = weights[i];
            assert(weights@.take(i + 1).drop_last() =~= weights@.take(i as int));
            if let Some(addr) = shape.to_etvr() {
                let m = weight_message_for(addr, bits);
                let ghost old_r = r@;
                r.push(m);
                assert(messages_view(r@) =~= messages_view(old_r).push(m@));
                assert(messages_view(r@) =~= etvr_eye_messages(weights@.take(i + 1)));
            } else {
                assert(messages_view(r@) =~= etvr_eye_messages(weights@.take(i + 1)));
            }
        }
        assert(weights@.take(weights@.len() as int) =~= weights@);
        r
    }
}

/// Reports weights with VRChat's native eye tracking protocol; it sends nothing yet.
pub struct NativeEmitter {}

impl NativeEmitter {
    pub fn new() -> (r: NativeEmitter) {
        NativeEmitter {}
    }
}

} // verus!
