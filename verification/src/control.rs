//! Remote control over OSC: the events it carries and how they are decoded.

pub mod decode;
pub mod event;

pub use decode::{decode_datagram, decode_message, decode_packet, MAX_PACKET_SIZE};
pub use event::{ControlEvent, EyeEvent, FaceEvent, Side};
