//! A model of OSC packets as the library reads and writes them.
//!
//! Floating point arguments are carried by their IEEE-754 bit pattern: the
//! library only moves them from one place to another and never computes with them.

use vstd::prelude::*;

use crate::control::decode::MAX_PACKET_SIZE;

verus! {

/// One argument of an OSC message.
#[derive(Clone, Debug)]
pub enum OscArg {
    /// A 32-bit integer (`i`).
    Int(i32),
    /// A 32-bit float (`f`), by the bit pattern of the `f32`.
    Float(u32),
    /// A string (`s`).
    String(String),
    /// Any other argument type; the library neither reads nor writes these.
    Other,
}

/// The mathematical value of an [`OscArg`].
pub enum OscArgView {
    Int(i32),
    Float(u32),
    String(Seq<char>),
    Other,
}

impl View for OscArg {
    type V = OscArgView;

    open spec fn view(&self) -> OscArgView {
        match self {
            OscArg::Int(i) => OscArgView::Int(*i),
            OscArg::Float(b) => OscArgView::Float(*b),
            OscArg::String(s) => OscArgView::String(s@),
            OscArg::Other => OscArgView::Other,
        }
    }
}

/// An OSC message: an address and its arguments.
#[derive(Clone, Debug)]
pub struct OscMessage {
    pub addr: String,
    pub args: Vec<OscArg>,
}

/// The mathematical value of an [`OscMessage`].
pub struct OscMessageView {
    pub addr: Seq<char>,
    pub args: Seq<OscArgView>,
}

impl View for OscMessage {
    type V = OscMessageView;

    open spec fn view(&self) -> OscMessageView {
        OscMessageView { addr: self.addr@, args: self.args@.map_values(|a: OscArg| a@) }
    }
}

/// An OSC packet: a single message, or a bundle of nested packets.
#[derive(Debug)]
pub enum Packet {
    Message(OscMessage),
    Bundle(Vec<Packet>),
}

/// The packet that `rosc` decodes a UDP datagram to, or `None` where the
/// datagram is no OSC packet.
pub uninterp spec fn decoded_datagram(bytes: Seq<u8>) -> Option<Packet>;

#[verifier::external_type_specification]
#[verifier::external_body]
pub struct ExRoscPacket(rosc::OscPacket);

/// Decodes one UDP datagram with `rosc::decoder::decode_udp`; `None` where
/// `rosc` refuses it. Bytes after the packet are ignored, as `decode_udp`
/// hands them back apart. The packet is named by [`decoded_datagram`]; which
/// datagrams decode to which packets is not stated.
///
/// `rosc` decodes nested bundles by recursion, one level per bundle header, so
/// a long datagram can nest deep enough to exhaust the stack: the datagram is
/// held to [`MAX_PACKET_SIZE`] bytes, the most the control listener reads.
#[verifier::external_body]
pub(crate) fn decode_udp(bytes: &[u8]) -> (r: Option<Packet>)
    requires
        bytes@.len() <= MAX_PACKET_SIZE,
    ensures
        r == decoded_datagram(bytes@),
{
    rosc::decoder::decode_udp(bytes).ok().map(|(_, p)| packet_from_rosc(p))
}

/// Turns a packet that `rosc` decoded into the library's model, argument by
/// argument: floats by their bits, and arguments of other types as
/// [`OscArg::Other`]. It is a part of [`decode_udp`] and claims nothing
/// of its own; it recurses as deep as the packet nests, which the bound on
/// [`decode_udp`]'s datagram keeps shallow.
#[verifier::external_body]
fn packet_from_rosc(p: rosc::OscPacket) -> (r: Packet) {
    match p {
        rosc::OscPacket::Message(m) => Packet::Message(OscMessage {
            addr: m.addr,
            args: m.args.into_iter().map(|a| match a {
                rosc::OscType::Int(i) => OscArg::Int(i),
                rosc::OscType::Float(f) => OscArg::Float(f.to_bits()),
                rosc::OscType::String(s) => OscArg::String(s),
                _ => OscArg::Other,
            }).collect(),
        }),
        rosc::OscPacket::Bundle(b) => Packet::Bundle(b.content.into_iter().map(packet_from_rosc).collect()),
    }
}

} // verus!
