//! Classification of inbound frames into typed events.
//!
//! The surface processor answers the handshake, drops the surface's
//! serial-number broadcast, and decodes every other message into a typed
//! control event.  The mixer processor recognizes registration
//! acknowledgments and full state snapshots and drops everything else.
//! A frame that fails to decode is always dropped, never fatal.

use vstd::prelude::*;
use crate::hexcodec::{hex_bytes_of, hex_decode, hex_encode, hex_str_of, hex_str_valid};
use crate::vban::{
    spec_rt_packet_matches, rtp_stream_name, vban_magic, RTPacket, VBANHeader, VBANServiceHeader,
    RT_PACKET_LEN,
};
use crate::xctrl::{XctrlInterface, XctrlStateUpdate};

verus! {

/// Tagged union delivered to the state engine.
#[derive(Clone, Copy, Debug)]
pub enum StateUpdate {
    /// A full mixer-state snapshot.
    Vban(RTPacket),
    /// A decoded physical input event from the surface.
    Xctrl(XctrlStateUpdate),
    /// The surface completed the identity handshake.
    XtouchConnect(),
}

/// The surface's fixed identity/handshake request frame.
pub open spec fn handshake_request_bytes() -> Seq<u8> {
    seq![0xf0u8, 0x00u8, 0x20u8, 0x32u8, 0x58u8, 0x54u8, 0x00u8, 0xf7u8]
}

/// The fixed identity response the gateway answers with.
pub open spec fn identity_response_bytes() -> Seq<u8> {
    seq![0xf0u8, 0x00u8, 0x00u8, 0x66u8, 0x14u8, 0x00u8, 0xf7u8]
}

/// The surface's device-serial-number broadcast, recognized and ignored.
pub open spec fn serial_broadcast_bytes() -> Seq<u8> {
    seq![
        0xf0u8, 0x00u8, 0x00u8, 0x66u8, 0x58u8, 0x01u8, 0x30u8, 0x31u8, 0x35u8,
        0x36u8, 0x34u8, 0x30u8, 0x38u8, 0x33u8, 0x39u8, 0x33u8, 0x44u8, 0xf7u8,
    ]
}

/// True when `u` is the decode of the three-byte control body at the head
/// of `bytes`: the top nibble of the first byte picks the control kind, a
/// fader carries its id in the low nibble and a little-endian value, a
/// button carries id and value in the next two bytes.
pub open spec fn spec_surface_update_matches(bytes: Seq<u8>, u: XctrlStateUpdate) -> bool {
    let kind = XctrlInterface::spec_from((bytes[0] as int / 16) as u8);
    &&& u.interface_type == kind
    &&& u.raw_message@ == bytes.subrange(0, 3)
    &&& match kind {
        XctrlInterface::Fader => u.id == bytes[0] as int % 16 && u.value == bytes[1] + 256
            * bytes[2],
        XctrlInterface::Button => u.id == bytes[1] && u.value == bytes[2],
        _ => u.id == 0 && u.value == 0,
    }
}

/// What the surface processor does with one inbound message.
pub struct SurfaceReaction {
    /// Frame to send straight back to the surface, already hex-encoded.
    pub reply: Option<String>,
    /// Event for the state engine.
    pub event: Option<StateUpdate>,
}

/// Full behaviour of `process_surface_message` on input `s`.
pub open spec fn spec_surface_reaction(s: Seq<char>, r: SurfaceReaction) -> bool {
    if !hex_str_valid(s) {
        r.reply is None && r.event is None
    } else {
        let bytes = hex_bytes_of(s);
        if bytes == handshake_request_bytes() {
            &&& r.reply matches Some(rep) && rep@ == hex_str_of(identity_response_bytes())
            &&& r.event matches Some(e) && e is XtouchConnect
        } else if bytes == serial_broadcast_bytes() || bytes.len() < 3 {
            r.reply is None && r.event is None
        } else {
            &&& r.reply is None
            &&& r.event matches Some(e) && e matches StateUpdate::Xctrl(u)
                && spec_surface_update_matches(bytes, u)
        }
    }
}

fn bytes_eq(a: &[u8], b: &[u8]) -> (r: bool)
    ensures
        r == (a@ == b@),
{
    if a.len() != b.len() {
        return false;
    }
    let n: usize = a.len();
    let mut i: usize = 0;
    while i < n
        invariant
            i <= n,
            n == a@.len(),
            n == b@.len(),
            forall|j: int| 0 <= j < i ==> a@[j] == b@[j],
        decreases n - i,
    {
        if a[i] != b[i] {
            return false;
        }
        i = i + 1;
    }
    proof {
        assert(a@ =~= b@);
    }
    true
}

/// Handles one raw inbound surface frame, hex-encoded.
///
/// The handshake request gets the fixed identity response and a
/// connection event; the serial-number broadcast is dropped silently; any
/// other message of at least three bytes becomes a typed control event;
/// anything that does not decode is dropped.
pub fn process_surface_message(msg: &str) -> (r: SurfaceReaction)
    ensures
        spec_surface_reaction(msg@, r),
{
    let decoded = hex_decode(msg);
    match decoded {
        None => SurfaceReaction { reply: None, event: None },
        Some(bytes) => {
            let handshake: [u8; 8] = [0xf0, 0x00, 0x20, 0x32, 0x58, 0x54, 0x00, 0xf7];
            let broadcast: [u8; 18] = [
                0xf0, 0x00, 0x00, 0x66, 0x58, 0x01, 0x30, 0x31, 0x35, 0x36, 0x34, 0x30, 0x38,
                0x33, 0x39, 0x33, 0x44, 0xf7,
            ];
            assert(handshake@ =~= handshake_request_bytes());
            assert(broadcast@ =~= serial_broadcast_bytes());
            if bytes_eq(bytes.as_slice(), handshake.as_slice()) {
                let identity: [u8; 7] = [0xf0, 0x00, 0x00, 0x66, 0x14, 0x00, 0xf7];
                assert(identity@ =~= identity_response_bytes());
                let reply = hex_encode(identity.as_slice());
                SurfaceReaction {
                    reply: Some(reply),
                    event: Some(StateUpdate::XtouchConnect()),
                }
            } else if bytes_eq(bytes.as_slice(), broadcast.as_slice()) {
                SurfaceReaction { reply: None, event: None }
            } else if bytes.len() < 3 {
                SurfaceReaction { reply: None, event: None }
            } else {
                let b0: u8 = bytes[0];
                let command = XctrlInterface::from(b0 / 16);
                let mut id: u8 = 0;
                let mut value: u16 = 0;
                match command {
                    XctrlInterface::Fader => {
                        id = b0 % 16;
                        value = bytes[1] as u16 + 256 * (bytes[2] as u16);
                    },
                    XctrlInterface::Button => {
                        id = bytes[1];
                        value = bytes[2] as u16;
                    },
                    XctrlInterface::Encoder => {
                    },
                    XctrlInterface::Unknown => {
                    },
                }
                let raw_message: [u8; 3] = [bytes[0], bytes[1], bytes[2]];
                assert(raw_message@ =~= bytes@.subrange(0, 3));
                let update = XctrlStateUpdate { interface_type: command, id, value, raw_message };
                SurfaceReaction { reply: None, event: Some(StateUpdate::Xctrl(update)) }
            }
        },
    }
}

/// What the mixer processor concluded about one inbound frame.
pub enum VbanOutcome {
    /// A full, well-formed mixer-state snapshot.
    Snapshot(RTPacket),
    /// The mixer acknowledged the registration; log only.
    Registered,
    /// Not a frame this gateway consumes; dropped.
    Dropped,
}

/// True when `b` is a registration acknowledgment: a service-class VBAN
/// frame with service 32 and additional info 1.
pub open spec fn spec_vban_registration_ack(b: Seq<u8>) -> bool {
    &&& b.len() >= 28
    &&& b.subrange(0, 4) == vban_magic()
    &&& b[4] == 0x60
    &&& b[6] == 32
    &&& b[7] == 1
}

/// True when `b` is a full mixer-state snapshot: a service-class VBAN
/// frame of exactly 1412 bytes on the "Voicemeeter-RTP" stream that is
/// not a registration acknowledgment.
pub open spec fn spec_vban_rt_snapshot(b: Seq<u8>) -> bool {
    &&& b.len() == RT_PACKET_LEN
    &&& b.subrange(0, 4) == vban_magic()
    &&& b[4] == 0x60
    &&& !(b[6] == 32 && b[7] == 1)
    &&& b.subrange(8, 24) == rtp_stream_name()
}

/// Classifies one raw inbound mixer frame, hex-encoded.
///
/// Exactly the registration acknowledgments come back `Registered`,
/// exactly the well-formed snapshot frames come back `Snapshot` with
/// every field decoded, and everything else — wrong magic, wrong
/// protocol class, unknown stream, truncated frame, or a string that is
/// not hex — is `Dropped`.
pub fn process_vban_message(msg: &str) -> (r: VbanOutcome)
    ensures
        match r {
            VbanOutcome::Snapshot(p) => {
                &&& hex_str_valid(msg@)
                &&& spec_vban_rt_snapshot(hex_bytes_of(msg@))
                &&& spec_rt_packet_matches(p, hex_bytes_of(msg@))
            },
            VbanOutcome::Registered => {
                &&& hex_str_valid(msg@)
                &&& spec_vban_registration_ack(hex_bytes_of(msg@))
            },
            VbanOutcome::Dropped => {
                hex_str_valid(msg@) ==> {
                    &&& !spec_vban_registration_ack(hex_bytes_of(msg@))
                    &&& !spec_vban_rt_snapshot(hex_bytes_of(msg@))
                }
            },
        },
{
    let decoded = hex_decode(msg);
    match decoded {
        None => VbanOutcome::Dropped,
        Some(bytes) => {
            if bytes.len() < 5 {
                return VbanOutcome::Dropped;
            }
            let header = VBANHeader::unpack(bytes.as_slice());
            if !header.magic_ok() {
                return VbanOutcome::Dropped;
            }
            if header.protocol != 0x60 {
                return VbanOutcome::Dropped;
            }
            if bytes.len() < 28 {
                return VbanOutcome::Dropped;
            }
            let service_header = VBANServiceHeader::unpack(bytes.as_slice());
            if service_header.service == 32 && service_header.additional_info == 1 {
                return VbanOutcome::Registered;
            }
            let rtp_name: [u8; 16] = [
                0x56, 0x6f, 0x69, 0x63, 0x65, 0x6d, 0x65, 0x65, 0x74, 0x65, 0x72, 0x2d, 0x52,
                0x54, 0x50, 0x00,
            ];
            assert(rtp_name@ =~= rtp_stream_name());
            if !bytes_eq(service_header.stream_name.as_slice(), rtp_name.as_slice()) {
                return VbanOutcome::Dropped;
            }
            if bytes.len() != RT_PACKET_LEN {
                return VbanOutcome::Dropped;
            }
            VbanOutcome::Snapshot(RTPacket::unpack(bytes.as_slice()))
        },
    }
}

} // verus!
