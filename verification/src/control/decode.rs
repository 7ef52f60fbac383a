use vstd::prelude::*;

use crate::calibration::face::{face_shape_named, FaceShape};
use crate::control::event::{
    ControlEvent, ControlEventView, EyeEvent, EyeEventView, FaceEvent, FaceEventView, Side,
};
use crate::osc::{decode_udp, decoded_datagram, OscArg, OscArgView, OscMessage, OscMessageView, Packet};
use crate::text::{is_absolute_path, path_is_absolute, str_eq};

verus! {

/// The frame count carried by a calibration command: at least one frame.
pub open spec fn frames_value(n: i32) -> u32 {
    if n < 1 {
        1
    } else {
        n as u32
    }
}

/// The side named by `name`: `left` or `right`.
pub open spec fn side_named(name: Seq<char>) -> Option<Side> {
    if name == "left"@ {
        Some(Side::Left)
    } else if name == "right"@ {
        Some(Side::Right)
    } else {
        None
    }
}

/// The event carried by a message, if it carries one.
///
/// The addresses and their arguments are those of the remote control API:
/// `/snout/face/bounds <shape> <lower> <upper>`, `/snout/face/calibrate/lower <frames>`,
/// `/snout/face/calibrate/upper <shape> <frames>`, `/snout/face/capture <path>` and
/// `/snout/eye/capture <side> <path>`; capture paths must be absolute.
pub open spec fn message_event(m: OscMessageView) -> Option<ControlEventView> {
    let a = m.args;
    if m.addr == "/snout/face/bounds"@ {
        if a.len() == 3 && a[0] is String && a[1] is Float && a[2] is Float {
            match face_shape_named(a[0]->String_0) {
                Some(shape) => Some(
                    ControlEventView::Face {
                        event: FaceEventView::SetBounds {
                            shape,
                            lower: a[1]->Float_0,
                            upper: a[2]->Float_0,
                        },
                    },
                ),
                None => None,
            }
        } else {
            None
        }
    } else if m.addr == "/snout/face/calibrate/lower"@ {
        if a.len() == 1 && a[0] is Int {
            Some(
                ControlEventView::Face {
                    event: FaceEventView::CalibrateLower { frames: frames_value(a[0]->Int_0) },
                },
            )
        } else {
            None
        }
    } else if m.addr == "/snout/face/calibrate/upper"@ {
        if a.len() == 2 && a[0] is String && a[1] is Int {
            match face_shape_named(a[0]->String_0) {
                Some(shape) => Some(
                    ControlEventView::Face {
                        event: FaceEventView::CalibrateUpper {
                            shape,
                            frames: frames_value(a[1]->Int_0),
                        },
                    },
                ),
                None => None,
            }
        } else {
            None
        }
    } else if m.addr == "/snout/face/capture"@ {
        if a.len() == 1 && a[0] is String && is_absolute_path(a[0]->String_0) {
            Some(ControlEventView::Face { event: FaceEventView::Capture { path: a[0]->String_0 } })
        } else {
            None
        }
    } else if m.addr == "/snout/eye/capture"@ {
        if a.len() == 2 && a[0] is String && a[1] is String && side_named(a[0]->String_0) is Some
            && is_absolute_path(a[1]->String_0) {
            Some(
                ControlEventView::Eye {
                    event: EyeEventView::Capture {
                        side: side_named(a[0]->String_0)->Some_0,
                        path: a[1]->String_0,
                    },
                },
            )
        } else {
            None
        }
    } else {
        None
    }
}

/// The view of an optional event.
pub open spec fn event_view(e: Option<ControlEvent>) -> Option<ControlEventView> {
    match e {
        Some(e) => Some(e@),
        None => None,
    }
}

fn frames_from(n: i32) -> (r: u32)
    ensures
        r == frames_value(n),
{
    if n < 1 {
        1
    } else {
        n as u32
    }
}

/// Decodes the control event carried by an OSC message.
///
/// Messages with an unknown address or with arguments that do not match the
/// address carry no event and give `None`.
pub fn decode_message(message: &OscMessage) -> (r: Option<ControlEvent>)
    ensures
        event_view(r) == message_event(message@),
{
    let args = &message.args;
    let addr = message.addr.as_str();
    let ghost m = message@;
    assert(m.args.len() == args@.len());
    if str_eq(addr, "/snout/face/bounds") {
        if args.len() != 3 {
            return None;
        }
        assert(m.args[0] == args@[0]@ && m.args[1] == args@[1]@ && m.args[2] == args@[2]@);
        let name = match &args[0] {
            OscArg::String(s) => s,
            _ => return None,
        };
        let lower = match &args[1] {
            OscArg::Float(b) => *b,
            _ => return None,
        };
        let upper = match &args[2] {
            OscArg::Float(b) => *b,
            _ => return None,
        };
        match FaceShape::from_str(name.as_str()) {
            Ok(shape) => Some(ControlEvent::Face { event: FaceEvent::SetBounds { shape, lower, upper } }),
            Err(_) => None,
        }
    } else if str_eq(addr, "/snout/face/calibrate/lower") {
        if args.len() != 1 {
            return None;
        }
        assert(m.args[0] == args@[0]@);
        match &args[0] {
            OscArg::Int(n) => Some(
                ControlEvent::Face { event: FaceEvent::CalibrateLower { frames: frames_from(*n) } },
            ),
            _ => None,
        }
    } else if str_eq(addr, "/snout/face/calibrate/upper") {
        if args.len() != 2 {
            return None;
        }
        assert(m.args[0] == args@[0]@ && m.args[1] == args@[1]@);
        let name = match &args[0] {
            OscArg::String(s) => s,
            _ => return None,
        };
        let n = match &args[1] {
            OscArg::Int(n) => *n,
            _ => return None,
        };
        match FaceShape::from_str(name.as_str()) {
            Ok(shape) => Some(
                ControlEvent::Face {
                    event: FaceEvent::CalibrateUpper { shape, frames: frames_from(n) },
                },
            ),
            Err(_) => None,
        }
    } else if str_eq(addr, "/snout/face/capture") {
        if args.len() != 1 {
            return None;
        }
        assert(m.args[0] == args@[0]@);
        match &args[0] {
            OscArg::String(path) => {
                if path_is_absolute(path.as_str()) {
                    Some(ControlEvent::Face { event: FaceEvent::Capture { path: path.clone() } })
                } else {
                    None
                }
            },
            _ => None,
        }
    } else if str_eq(addr, "/snout/eye/capture") {
        if args.len() != 2 {
            return None;
        }
        assert(m.args[0] == args@[0]@ && m.args[1] == args@[1]@);
        let side_name = match &args[0] {
            OscArg::String(s) => s,
            _ => return None,
        };
        let path = match &args[1] {
            OscArg::String(p) => p,
            _ => return None,
        };
        let side = if str_eq(side_name.as_str(), "left") {
            Side::Left
        } else if str_eq(side_name.as_str(), "right") {
            Side::Right
        } else {
            return None;
        };
        if !path_is_absolute(path.as_str()) {
            return None;
        }
        Some(ControlEvent::Eye { event: EyeEvent::Capture { side, path: path.clone() } })
    } else {
        None
    }
}

/// The events carried by a packet, in order: the event of a message, or the
/// events of each packet of a bundle in turn.
pub open spec fn packet_events(p: Packet) -> Seq<ControlEventView>
    decreases p,
{
    match p {
        Packet::Message(m) => match message_event(m@) {
            Some(e) => seq![e],
            None => seq![],
        },
        Packet::Bundle(content) => packets_events(content@),
    }
}

/// The events carried by a sequence of packets, in order.
pub open spec fn packets_events(ps: Seq<Packet>) -> Seq<ControlEventView>
    decreases ps,
{
    if ps.len() == 0 {
        seq![]
    } else {
        packets_events(ps.drop_last()) + packet_events(ps.last())
    }
}

/// Decodes every control event that a packet carries, in order.
pub fn decode_packet(packet: &Packet) -> (r: Vec<ControlEvent>)
    ensures
        r@.map_values(|e: ControlEvent| e@) == packet_events(*packet),
    decreases packet,
{
    match packet {
        Packet::Message(m) => {
            let mut r = Vec::new();
            if let Some(e) = decode_message(m) {
                r.push(e);
            }
            assert(r@.map_values(|e: ControlEvent| e@) =~= packet_events(*packet));
            r
        },
        Packet::Bundle(content) => {
            let mut r: Vec<ControlEvent> = Vec::new();
            let n = content.len();
            for i in 0..n
                invariant
                    n == content@.len(),
                    *packet == Packet::Bundle(*content),
                    r@.map_values(|e: ControlEvent| e@) == packets_events(content@.take(i as int)),
            {
                proof {
                    let ghost item = content@[i as int];
                    let ghost p = *packet;
                    let ghost v = p->Bundle_0;
                    assert(v == *content);
                    assert(decreases_to!(p => p->Bundle_0));
                    assert(decreases_to!(v => v@));
                    assert(decreases_to!(v@ => item));
                    assert(decreases_to!(*packet => item));
                }
                let mut sub = decode_packet(&content[i]);
                r.append(&mut sub);
                assert(content@.take(i + 1).drop_last() =~= content@.take(i as int));
                assert(r@.map_values(|e: ControlEvent| e@) =~= packets_events(content@.take(i + 1)));
            }
            assert(content@.take(n as int) =~= content@);
            r
        },
    }
}

/// The largest control datagram that is read, in bytes.
pub const MAX_PACKET_SIZE: usize = 1024;

/// The events carried by a UDP datagram: those of the packet it decodes to,
/// and none where it is no OSC packet.
pub open spec fn datagram_events(bytes: Seq<u8>) -> Seq<ControlEventView> {
    match decoded_datagram(bytes) {
        Some(p) => packet_events(p),
        None => seq![],
    }
}

/// Decodes every control event that a UDP datagram of at most
/// [`MAX_PACKET_SIZE`] bytes carries, in order. A datagram that is no OSC
/// packet carries none.
pub fn decode_datagram(bytes: &[u8]) -> (r: Vec<ControlEvent>)
    requires
        bytes@.len() <= MAX_PACKET_SIZE,
    ensures
        r@.map_values(|e: ControlEvent| e@) == datagram_events(bytes@),
{
    match decode_udp(bytes) {
        Some(packet) => decode_packet(&packet),
        None => {
            let r: Vec<ControlEvent> = Vec::new();
            assert(r@.map_values(|e: ControlEvent| e@) =~= seq![]);
            r
        },
    }
}

} // verus!
