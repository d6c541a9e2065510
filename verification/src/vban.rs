//! VBAN wire codec.
//!
//! Frames start with a four-byte magic and a protocol-class byte.  Service
//! frames carry a sub-header and either a registration body or a full
//! mixer-state snapshot; serial frames carry a three-byte surface control
//! message.  Every layout is given as a spec function over byte sequences,
//! and the executable encoders and decoders are proved against them.

use vstd::prelude::*;
use crate::hexcodec::{hex_encode, hex_str_of};

verus! {

/// The four magic bytes that open every VBAN frame, spelling "VBAN".
pub open spec fn vban_magic() -> Seq<u8> {
    seq![0x56u8, 0x42u8, 0x41u8, 0x4eu8]
}

/// The 16-byte null-padded stream name "MIDI1" of outbound control
/// envelopes.
pub open spec fn midi_stream_name() -> Seq<u8> {
    seq![
        0x4du8, 0x49u8, 0x44u8, 0x49u8, 0x31u8, 0x00u8, 0x00u8, 0x00u8,
        0x00u8, 0x00u8, 0x00u8, 0x00u8, 0x00u8, 0x00u8, 0x00u8, 0x00u8,
    ]
}

/// The 16-byte null-padded stream name "X-Touch meters" of the
/// registration frame.
pub open spec fn meters_stream_name() -> Seq<u8> {
    seq![
        0x58u8, 0x2du8, 0x54u8, 0x6fu8, 0x75u8, 0x63u8, 0x68u8, 0x20u8,
        0x6du8, 0x65u8, 0x74u8, 0x65u8, 0x72u8, 0x73u8, 0x00u8, 0x00u8,
    ]
}

/// The 16-byte null-padded stream name "Voicemeeter-RTP" of inbound
/// mixer-state snapshots.
pub open spec fn rtp_stream_name() -> Seq<u8> {
    seq![
        0x56u8, 0x6fu8, 0x69u8, 0x63u8, 0x65u8, 0x6du8, 0x65u8, 0x65u8,
        0x74u8, 0x65u8, 0x72u8, 0x2du8, 0x52u8, 0x54u8, 0x50u8, 0x00u8,
    ]
}

/// Unsigned 16-bit value stored little-endian at offset `i`.
pub open spec fn u16_le_at(b: Seq<u8>, i: int) -> u16 {
    (b[i] + 256 * b[i + 1]) as u16
}

/// Unsigned 32-bit value stored little-endian at offset `i`.
pub open spec fn u32_le_at(b: Seq<u8>, i: int) -> u32 {
    (b[i] + 256 * b[i + 1] + 65536 * b[i + 2] + 16777216 * b[i + 3]) as u32
}

/// Signed 16-bit value stored little-endian at offset `i`, two's
/// complement.
pub open spec fn i16_le_at(b: Seq<u8>, i: int) -> i16 {
    if u16_le_at(b, i) >= 0x8000 {
        (u16_le_at(b, i) - 0x10000) as i16
    } else {
        u16_le_at(b, i) as i16
    }
}

/// Little-endian bytes of an unsigned 32-bit value.
pub open spec fn u32_le_bytes(v: u32) -> Seq<u8> {
    seq![
        (v % 256) as u8,
        ((v / 256) % 256) as u8,
        ((v / 65536) % 256) as u8,
        ((v / 16777216) % 256) as u8,
    ]
}

fn read_u16_le(b: &[u8], i: usize) -> (r: u16)
    requires
        i + 2 <= b@.len(),
    ensures
        r == u16_le_at(b@, i as int),
{
    b[i] as u16 + 256 * (b[i + 1] as u16)
}

fn read_u32_le(b: &[u8], i: usize) -> (r: u32)
    requires
        i + 4 <= b@.len(),
    ensures
        r == u32_le_at(b@, i as int),
{
    b[i] as u32 + 256 * (b[i + 1] as u32) + 65536 * (b[i + 2] as u32) + 16777216 * (b[i
        + 3] as u32)
}

fn read_i16_le(b: &[u8], i: usize) -> (r: i16)
    requires
        i + 2 <= b@.len(),
    ensures
        r == i16_le_at(b@, i as int),
{
    let u: u16 = read_u16_le(b, i);
    if u >= 0x8000 {
        (u as i32 - 0x10000) as i16
    } else {
        u as i16
    }
}

/// Copies `N` bytes starting at `off` into a fixed array.
fn read_array<const N: usize>(b: &[u8], off: usize) -> (r: [u8; N])
    requires
        off + N <= b@.len(),
    ensures
        r@ == b@.subrange(off as int, off + N),
{
    let n: usize = b.len();
    let mut out: [u8; N] = [0; N];
    let mut i: usize = 0;
    while i < N
        invariant
            i <= N,
            off + N <= n,
            n == b@.len(),
            out@.len() == N,
            forall|j: int| 0 <= j < i ==> out@[j] == b@[off + j],
        decreases N - i,
    {
        out[i] = b[off + i];
        i = i + 1;
    }
    assert(out@ =~= b@.subrange(off as int, off + N));
    out
}

/// Reads `N` consecutive little-endian 16-bit values starting at `off`.
fn read_u16_array<const N: usize>(b: &[u8], off: usize) -> (r: [u16; N])
    requires
        off + 2 * N <= b@.len(),
    ensures
        forall|j: int| 0 <= j < N ==> r@[j] == u16_le_at(b@, off + 2 * j),
{
    let n: usize = b.len();
    let mut out: [u16; N] = [0; N];
    let mut i: usize = 0;
    while i < N
        invariant
            i <= N,
            off + 2 * N <= n,
            n == b@.len(),
            out@.len() == N,
            forall|j: int| 0 <= j < i ==> out@[j] == u16_le_at(b@, off + 2 * j),
        decreases N - i,
    {
        out[i] = read_u16_le(b, off + 2 * i);
        i = i + 1;
    }
    out
}

/// Reads `N` consecutive little-endian 32-bit values starting at `off`.
fn read_u32_array<const N: usize>(b: &[u8], off: usize) -> (r: [u32; N])
    requires
        off + 4 * N <= b@.len(),
    ensures
        forall|j: int| 0 <= j < N ==> r@[j] == u32_le_at(b@, off + 4 * j),
{
    let n: usize = b.len();
    let mut out: [u32; N] = [0; N];
    let mut i: usize = 0;
    while i < N
        invariant
            i <= N,
            off + 4 * N <= n,
            n == b@.len(),
            out@.len() == N,
            forall|j: int| 0 <= j < i ==> out@[j] == u32_le_at(b@, off + 4 * j),
        decreases N - i,
    {
        out[i] = read_u32_le(b, off + 4 * i);
        i = i + 1;
    }
    out
}

/// Reads `N` consecutive little-endian signed 16-bit values starting at
/// `off`.
fn read_i16_array<const N: usize>(b: &[u8], off: usize) -> (r: [i16; N])
    requires
        off + 2 * N <= b@.len(),
    ensures
        forall|j: int| 0 <= j < N ==> r@[j] == i16_le_at(b@, off + 2 * j),
{
    let n: usize = b.len();
    let mut out: [i16; N] = [0; N];
    let mut i: usize = 0;
    while i < N
        invariant
            i <= N,
            off + 2 * N <= n,
            n == b@.len(),
            out@.len() == N,
            forall|j: int| 0 <= j < i ==> out@[j] == i16_le_at(b@, off + 2 * j),
        decreases N - i,
    {
        out[i] = read_i16_le(b, off + 2 * i);
        i = i + 1;
    }
    out
}

/// Protocol class carried in the fifth byte of every frame.
#[derive(Clone, Copy, Debug, PartialEq, Eq, Structural)]
pub enum VBANProtocol {
    Audio,
    Serial,
    Txt,
    Service,
    User,
}

impl VBANProtocol {
    /// Wire code of the protocol class.
    pub open spec fn spec_code(self) -> u8 {
        match self {
            VBANProtocol::Audio => 0x00,
            VBANProtocol::Serial => 0x20,
            VBANProtocol::Txt => 0x40,
            VBANProtocol::Service => 0x60,
            VBANProtocol::User => 0xe0,
        }
    }

    pub fn code(&self) -> (r: u8)
        ensures
            r == self.spec_code(),
    {
        match self {
            VBANProtocol::Audio => 0x00,
            VBANProtocol::Serial => 0x20,
            VBANProtocol::Txt => 0x40,
            VBANProtocol::Service => 0x60,
            VBANProtocol::User => 0xe0,
        }
    }
}

/// Edition of the software mixer reported in a state snapshot.
#[derive(Clone, Copy, Debug, PartialEq, Eq, Structural)]
pub enum VoiceMeeterType {
    Standard,
    Banana,
    Potato,
}

impl VoiceMeeterType {
    /// Wire code of the mixer edition.
    pub open spec fn spec_code(self) -> u8 {
        match self {
            VoiceMeeterType::Standard => 1,
            VoiceMeeterType::Banana => 2,
            VoiceMeeterType::Potato => 3,
        }
    }

    pub fn code(&self) -> (r: u8)
        ensures
            r == self.spec_code(),
    {
        match self {
            VoiceMeeterType::Standard => 1,
            VoiceMeeterType::Banana => 2,
            VoiceMeeterType::Potato => 3,
        }
    }
}

/// Common five-byte prefix: magic plus protocol class.
#[derive(Clone, Copy, Debug)]
pub struct VBANHeader {
    pub vban: [u8; 4],
    pub protocol: u8,
}

impl VBANHeader {
    /// Wire layout: magic, then the protocol byte.
    pub open spec fn spec_bytes(self) -> Seq<u8> {
        self.vban@ + seq![self.protocol]
    }

    /// Reads the five-byte prefix of a frame.
    pub fn unpack(b: &[u8]) -> (r: VBANHeader)
        requires
            b@.len() >= 5,
        ensures
            r.vban@ == b@.subrange(0, 4),
            r.protocol == b@[4],
    {
        let vban: [u8; 4] = read_array(b, 0);
        VBANHeader { vban, protocol: b[4] }
    }

    /// True when the prefix carries the VBAN magic.
    pub fn magic_ok(&self) -> (r: bool)
        ensures
            r == (self.vban@ =~= vban_magic()),
    {
        let ok = self.vban[0] == 0x56 && self.vban[1] == 0x42 && self.vban[2] == 0x41
            && self.vban[3] == 0x4e;
        if ok {
            assert(self.vban@ =~= vban_magic());
        }
        ok
    }
}

/// True when `h` is exactly the 28-byte service envelope at the head of
/// frame bytes `b`.
pub open spec fn spec_service_header_matches(h: VBANServiceHeader, b: Seq<u8>) -> bool {
    &&& h.header.vban@ == b.subrange(0, 4)
    &&& h.header.protocol == b[4]
    &&& h.function == b[5]
    &&& h.service == b[6]
    &&& h.additional_info == b[7]
    &&& h.stream_name@ == b.subrange(8, 24)
    &&& h.frame_id == u32_le_at(b, 24)
}

/// Service-class envelope: the common prefix, function, service id,
/// additional info, a 16-byte null-padded stream name, and a frame id.
#[derive(Clone, Copy, Debug)]
pub struct VBANServiceHeader {
    pub header: VBANHeader,
    pub function: u8,
    pub service: u8,
    pub additional_info: u8,
    pub stream_name: [u8; 16],
    pub frame_id: u32,
}

impl VBANServiceHeader {
    /// Wire layout: 28 bytes, frame id little-endian.
    pub open spec fn spec_bytes(self) -> Seq<u8> {
        self.header.spec_bytes() + seq![self.function, self.service, self.additional_info]
            + self.stream_name@ + u32_le_bytes(self.frame_id)
    }

    /// Reads the 28-byte service envelope at the head of a frame.
    pub fn unpack(b: &[u8]) -> (r: VBANServiceHeader)
        requires
            b@.len() >= 28,
        ensures
            spec_service_header_matches(r, b@),
    {
        let header = VBANHeader::unpack(b);
        let stream_name: [u8; 16] = read_array(b, 8);
        VBANServiceHeader {
            header,
            function: b[5],
            service: b[6],
            additional_info: b[7],
            stream_name,
            frame_id: read_u32_le(b, 24),
        }
    }
}

/// Appends the little-endian bytes of a 32-bit value.
fn push_u32_le(out: &mut Vec<u8>, v: u32)
    ensures
        final(out)@ == old(out)@ + u32_le_bytes(v),
{
    out.push((v % 256) as u8);
    out.push(((v / 256) % 256) as u8);
    out.push(((v / 65536) % 256) as u8);
    out.push(((v / 16777216) % 256) as u8);
    assert(out@ =~= old(out)@ + u32_le_bytes(v));
}

impl VBANHeader {
    /// Appends the five-byte prefix.
    fn pack_into(&self, out: &mut Vec<u8>)
        ensures
            final(out)@ == old(out)@ + self.spec_bytes(),
    {
        out.push(self.vban[0]);
        out.push(self.vban[1]);
        out.push(self.vban[2]);
        out.push(self.vban[3]);
        out.push(self.protocol);
        assert(out@ =~= old(out)@ + self.spec_bytes());
    }
}

impl VBANServiceHeader {
    /// Appends the 28-byte service envelope.
    fn pack_into(&self, out: &mut Vec<u8>)
        ensures
            final(out)@ == old(out)@ + self.spec_bytes(),
    {
        self.header.pack_into(out);
        out.push(self.function);
        out.push(self.service);
        out.push(self.additional_info);
        let mut i: usize = 0;
        while i < 16
            invariant
                i <= 16,
                out@ == old(out)@ + self.header.spec_bytes() + seq![
                    self.function,
                    self.service,
                    self.additional_info,
                ] + self.stream_name@.subrange(0, i as int),
            decreases 16 - i,
        {
            out.push(self.stream_name[i]);
            assert(self.stream_name@.subrange(0, i + 1) =~= self.stream_name@.subrange(0, i as int)
                + seq![self.stream_name@[i as int]]);
            i = i + 1;
        }
        assert(self.stream_name@.subrange(0, 16) =~= self.stream_name@);
        push_u32_le(out, self.frame_id);
        assert(out@ =~= old(out)@ + self.spec_bytes());
    }
}

/// Registration frame bytes: service envelope for stream "X-Touch meters"
/// with service 32, additional info 50, frame id 1, and 128 packet-id
/// bytes of all ones.
pub open spec fn spec_heartbeat_bytes() -> Seq<u8> {
    vban_magic() + seq![0x60u8, 0x00u8, 32u8, 50u8] + meters_stream_name() + seq![
        1u8,
        0u8,
        0u8,
        0u8,
    ] + Seq::new(128, |i: int| 1u8)
}

/// Registration request that keeps the mixer's state stream alive.
#[derive(Clone, Copy, Debug)]
pub struct RegisterRT {
    pub header: VBANServiceHeader,
    pub packet_ids: [u8; 128],
}

impl RegisterRT {
    /// Wire layout: 156 bytes.
    pub open spec fn spec_bytes(self) -> Seq<u8> {
        self.header.spec_bytes() + self.packet_ids@
    }

    /// The fixed registration request: stream "X-Touch meters", service 32,
    /// additional info 50, frame id 1, every packet id 1.
    pub fn new() -> (r: Self)
        ensures
            r.spec_bytes() == spec_heartbeat_bytes(),
    {
        let stream_name: [u8; 16] = [
            0x58, 0x2d, 0x54, 0x6f, 0x75, 0x63, 0x68, 0x20, 0x6d, 0x65, 0x74, 0x65, 0x72, 0x73,
            0x00, 0x00,
        ];
        assert(stream_name@ =~= meters_stream_name());
        let r = RegisterRT {
            header: VBANServiceHeader {
                header: VBANHeader { vban: [0x56, 0x42, 0x41, 0x4e], protocol: 0x60 },
                function: 0,
                service: 32,
                additional_info: 50,
                stream_name,
                frame_id: 1,
            },
            packet_ids: [1; 128],
        };
        assert(r.packet_ids@ =~= Seq::new(128, |i: int| 1u8));
        assert(r.header.header.vban@ =~= vban_magic());
        assert(r.spec_bytes() =~= spec_heartbeat_bytes());
        r
    }

    /// Serializes the frame.
    pub fn pack(&self) -> (r: Vec<u8>)
        ensures
            r@ == self.spec_bytes(),
            r@.len() == 156,
    {
        let mut out: Vec<u8> = Vec::new();
        self.header.pack_into(&mut out);
        let mut i: usize = 0;
        while i < 128
            invariant
                i <= 128,
                out@ == self.header.spec_bytes() + self.packet_ids@.subrange(0, i as int),
            decreases 128 - i,
        {
            out.push(self.packet_ids[i]);
            assert(self.packet_ids@.subrange(0, i + 1) =~= self.packet_ids@.subrange(0, i as int)
                + seq![self.packet_ids@[i as int]]);
            i = i + 1;
        }
        assert(self.packet_ids@.subrange(0, 128) =~= self.packet_ids@);
        assert(out@ =~= self.spec_bytes());
        out
    }
}

/// Hex form of the registration frame, ready for the outbound queue.
pub fn heartbeat_frame() -> (r: String)
    ensures
        r@ == hex_str_of(spec_heartbeat_bytes()),
{
    let packet = RegisterRT::new();
    let bytes = packet.pack();
    hex_encode(bytes.as_slice())
}

/// Serial-class envelope that wraps a surface control message.
#[derive(Clone, Copy, Debug)]
pub struct VBANMidiHeader {
    pub header: VBANHeader,
    pub bitmode: u8,
    pub channels: u8,
    pub data_format: u8,
    pub stream_name: [u8; 16],
    pub frame_id: u32,
}

impl VBANMidiHeader {
    /// Wire layout: 28 bytes, frame id little-endian.
    pub open spec fn spec_bytes(self) -> Seq<u8> {
        self.header.spec_bytes() + seq![self.bitmode, self.channels, self.data_format]
            + self.stream_name@ + u32_le_bytes(self.frame_id)
    }

    /// Appends the 28-byte envelope.
    fn pack_into(&self, out: &mut Vec<u8>)
        ensures
            final(out)@ == old(out)@ + self.spec_bytes(),
    {
        self.header.pack_into(out);
        out.push(self.bitmode);
        out.push(self.channels);
        out.push(self.data_format);
        let mut i: usize = 0;
        while i < 16
            invariant
                i <= 16,
                out@ == old(out)@ + self.header.spec_bytes() + seq![
                    self.bitmode,
                    self.channels,
                    self.data_format,
                ] + self.stream_name@.subrange(0, i as int),
            decreases 16 - i,
        {
            out.push(self.stream_name[i]);
            assert(self.stream_name@.subrange(0, i + 1) =~= self.stream_name@.subrange(0, i as int)
                + seq![self.stream_name@[i as int]]);
            i = i + 1;
        }
        assert(self.stream_name@.subrange(0, 16) =~= self.stream_name@);
        push_u32_le(out, self.frame_id);
        assert(out@ =~= old(out)@ + self.spec_bytes());
    }
}

/// Control envelope bytes for a given three-byte body and frame id:
/// serial-class header, stream "MIDI1", then the body.
pub open spec fn spec_midi_packet_bytes(body: Seq<u8>, frame_id: u32) -> Seq<u8> {
    vban_magic() + seq![0x20u8, 0x00u8, 0x00u8, 0x10u8] + midi_stream_name() + u32_le_bytes(
        frame_id,
    ) + body
}

/// Control envelope: serial-class header plus a three-byte surface control
/// message.
#[derive(Clone, Copy, Debug)]
pub struct MidiPacket {
    pub header: VBANMidiHeader,
    pub body: [u8; 3],
}

impl MidiPacket {
    /// Wire layout: 31 bytes.
    pub open spec fn spec_bytes(self) -> Seq<u8> {
        self.header.spec_bytes() + self.body@
    }

    /// Wraps a three-byte control message under the fixed "MIDI1" stream
    /// with the given frame id.
    pub fn new(packet_data: [u8; 3], frame_id: u32) -> (r: Self)
        ensures
            r.spec_bytes() == spec_midi_packet_bytes(packet_data@, frame_id),
            r.body@ == packet_data@,
            r.header.frame_id == frame_id,
    {
        let stream_name: [u8; 16] = [
            0x4d, 0x49, 0x44, 0x49, 0x31, 0x00, 0x00, 0x00, 0x00, 0x00, 0x00, 0x00, 0x00, 0x00,
            0x00, 0x00,
        ];
        assert(stream_name@ =~= midi_stream_name());
        let r = MidiPacket {
            header: VBANMidiHeader {
                header: VBANHeader { vban: [0x56, 0x42, 0x41, 0x4e], protocol: 0x20 },
                bitmode: 0,
                channels: 0,
                data_format: 0x10,
                stream_name,
                frame_id,
            },
            body: packet_data,
        };
        assert(r.header.header.vban@ =~= vban_magic());
        assert(r.spec_bytes() =~= spec_midi_packet_bytes(packet_data@, frame_id));
        r
    }

    /// Serializes the envelope.
    pub fn pack(&self) -> (r: Vec<u8>)
        ensures
            r@ == self.spec_bytes(),
            r@.len() == 31,
    {
        let mut out: Vec<u8> = Vec::new();
        self.header.pack_into(&mut out);
        out.push(self.body[0]);
        out.push(self.body[1]);
        out.push(self.body[2]);
        assert(out@ =~= self.spec_bytes());
        out
    }
}

/// Hex form of a control envelope, ready for the outbound queue.
pub fn midi_frame(body: [u8; 3], frame_id: u32) -> (r: String)
    ensures
        r@ == hex_str_of(spec_midi_packet_bytes(body@, frame_id)),
{
    let packet = MidiPacket::new(body, frame_id);
    let bytes = packet.pack();
    hex_encode(bytes.as_slice())
}


/// Exact length in bytes of a mixer-state snapshot frame.
pub const RT_PACKET_LEN: usize = 1412;

/// Raw signed level attenuation turned into the working scale:
/// the protocol stores levels inverted.
pub open spec fn spec_normalize_level(level: u16) -> u16 {
    (65535 - level) as u16
}

/// First normalized level of channel `i` (eight channels: five physical
/// pairs packed at stride 2, then three virtual pairs at stride 8).
pub open spec fn spec_input_level_a(raw: Seq<u16>, i: int) -> u16 {
    if i < 5 {
        spec_normalize_level(raw[2 * i])
    } else {
        spec_normalize_level(raw[10 + 8 * (i - 5)])
    }
}

/// Second normalized level of input channel `i`.
pub open spec fn spec_input_level_b(raw: Seq<u16>, i: int) -> u16 {
    if i < 5 {
        spec_normalize_level(raw[2 * i + 1])
    } else {
        spec_normalize_level(raw[10 + 8 * (i - 5) + 1])
    }
}

/// First normalized level of output bus `i` (five physical buses at
/// stride 8, then three virtual buses at stride 8 from offset 40).
pub open spec fn spec_output_level_a(raw: Seq<u16>, i: int) -> u16 {
    if i < 5 {
        spec_normalize_level(raw[8 * i])
    } else {
        spec_normalize_level(raw[40 + 8 * (i - 5)])
    }
}

/// Second normalized level of output bus `i`.
pub open spec fn spec_output_level_b(raw: Seq<u16>, i: int) -> u16 {
    if i < 5 {
        spec_normalize_level(raw[8 * i + 1])
    } else {
        spec_normalize_level(raw[40 + 8 * (i - 5) + 1])
    }
}

/// Meter segment count for a pair of normalized levels.
///
/// The average of the pair, negated and scaled by 0.01, is the signal in
/// dB; sums keep the arithmetic in integers (`s = 2 * average`).  Below
/// -200 dB the pair is treated as silence/invalid and reset to 0 dB;
/// between -200 and -100 dB it clamps to -100 dB; then `(-100..0]` dB maps
/// onto the meter by `((db + 100) / 115) * 15`, truncated.
pub open spec fn spec_meter(a: u16, b: u16) -> int {
    let s = a + b;
    if s > 40000 {
        13
    } else if s > 20000 {
        0
    } else {
        (20000 - s) * 3 / 4600
    }
}

/// Fader travel for a gain in hundredths of dB: `-60 dB .. +12 dB` maps
/// linearly onto `0..32767`, clamped at both ends and truncated.
pub open spec fn spec_fader_position(gain: int) -> int {
    let c = if gain < -6000 {
        0
    } else if gain > 1200 {
        7200
    } else {
        gain + 6000
    };
    c * 32767 / 7200
}

/// First seven bytes of label slot `i`: the display's top row.
pub open spec fn spec_label_top(labels: Seq<u8>, i: int) -> Seq<u8> {
    labels.subrange(60 * i, 60 * i + 7)
}

/// Bytes seven to fourteen of label slot `i`: the display's bottom row.
pub open spec fn spec_label_bottom(labels: Seq<u8>, i: int) -> Seq<u8> {
    labels.subrange(60 * i + 7, 60 * i + 14)
}

/// True when both displayed rows of label slot `i` are all zero.
pub open spec fn spec_label_blank(labels: Seq<u8>, i: int) -> bool {
    forall|k: int| 0 <= k < 14 ==> #[trigger] labels[60 * i + k] == 0
}

fn normalize_level(level: u16) -> (r: u16)
    ensures
        r == spec_normalize_level(level),
{
    65535 - level
}

fn meter_from_pair(a: u16, b: u16) -> (r: i16)
    ensures
        r == spec_meter(a, b),
{
    let s: u32 = a as u32 + b as u32;
    if s > 40000 {
        13
    } else if s > 20000 {
        0
    } else {
        let v: u32 = ((20000 - s) * 3) / 4600;
        proof {
            lemma_meter_value_bounds(a, b);
        }
        v as i16
    }
}

/// The meter formula never leaves the display's range: every level pair
/// yields a value within the 16-segment scale `[0, 15]` — in fact within
/// `[0, 13]`, since 0 dB maps to 13.
pub proof fn lemma_meter_value_bounds(a: u16, b: u16)
    ensures
        0 <= spec_meter(a, b) <= 15,
        spec_meter(a, b) <= 13,
{
    let s = a + b;
    if s > 40000 {
    } else if s > 20000 {
    } else {
        let num = (20000 - s) * 3;
        assert(0 <= num <= 60000);
        vstd::arithmetic::div_mod::lemma_div_is_ordered(0, num, 4600);
        vstd::arithmetic::div_mod::lemma_div_is_ordered(num, 60000, 4600);
    }
}

/// Executable fader scaling, proved equal to `spec_fader_position`.
pub fn fader_position(gain: i16) -> (r: u16)
    ensures
        r == spec_fader_position(gain as int),
{
    let c: i32 = if gain < -6000 {
        0
    } else if gain > 1200 {
        7200
    } else {
        gain as i32 + 6000
    };
    let p: i32 = (c * 32767) / 7200;
    proof {
        lemma_fader_position_bounds(gain as int);
    }
    p as u16
}

/// The fader scaling stays on the physical travel: every gain maps into
/// `[0, 32767]`, the lower clamp point `-60.00 dB` maps to 0, and the
/// upper clamp point `+12.00 dB` maps to 32767.
pub proof fn lemma_fader_position_bounds(gain: int)
    ensures
        0 <= spec_fader_position(gain) <= 32767,
        spec_fader_position(-6000) == 0,
        spec_fader_position(1200) == 32767,
{
    let c = if gain < -6000 {
        0
    } else if gain > 1200 {
        7200
    } else {
        gain + 6000
    };
    assert(0 <= c <= 7200);
    vstd::arithmetic::mul::lemma_mul_inequality(c, 7200, 32767);
    vstd::arithmetic::div_mod::lemma_div_is_ordered(0, c * 32767, 7200);
    vstd::arithmetic::div_mod::lemma_div_is_ordered(c * 32767, 7200 * 32767int, 7200);
    assert(7200 * 32767 / 7200 == 32767) by {
        vstd::arithmetic::div_mod::lemma_div_multiples_vanish(32767, 7200);
    }
}

/// The fader scaling is monotone: a louder gain never yields a lower
/// fader position.
pub proof fn lemma_fader_position_monotone(g1: int, g2: int)
    requires
        g1 <= g2,
    ensures
        spec_fader_position(g1) <= spec_fader_position(g2),
{
    let c1 = if g1 < -6000 {
        0
    } else if g1 > 1200 {
        7200
    } else {
        g1 + 6000
    };
    let c2 = if g2 < -6000 {
        0
    } else if g2 > 1200 {
        7200
    } else {
        g2 + 6000
    };
    assert(c1 <= c2);
    vstd::arithmetic::mul::lemma_mul_inequality(c1, c2, 32767);
    vstd::arithmetic::div_mod::lemma_div_is_ordered(c1 * 32767, c2 * 32767, 7200);
}

/// One full snapshot of the mixer's state: per-strip and per-bus flag
/// masks, gain layers, level arrays and label blocks, 1412 bytes on the
/// wire.
#[derive(Clone, Copy, Debug)]
pub struct RTPacket {
    pub header: VBANServiceHeader,
    pub voicemeeter_type: u8,
    pub reserved: u8,
    pub buffer_size: u16,
    pub voicemeeter_version_raw: [u8; 4],
    pub options: u32,
    pub sample_rate: u32,
    pub input_levels_raw: [u16; 34],
    pub output_levels_raw: [u16; 64],
    pub transport: u32,
    pub strip_state: [u32; 8],
    pub bus_state: [u32; 8],
    pub strip_gain_layer_1_raw: [i16; 8],
    pub strip_gain_layer_2_raw: [i16; 8],
    pub strip_gain_layer_3_raw: [i16; 8],
    pub strip_gain_layer_4_raw: [i16; 8],
    pub strip_gain_layer_5_raw: [i16; 8],
    pub strip_gain_layer_6_raw: [i16; 8],
    pub strip_gain_layer_7_raw: [i16; 8],
    pub strip_gain_layer_8_raw: [i16; 8],
    pub bus_gain_raw: [i16; 8],
    pub strip_labels_raw: [u8; 480],
    pub bus_labels_raw: [u8; 480],
}

/// True when `p` holds exactly the fields of the 1412-byte snapshot
/// frame `b`, every field read little-endian at its fixed offset.
pub open spec fn spec_rt_packet_matches(p: RTPacket, b: Seq<u8>) -> bool {
    &&& spec_service_header_matches(p.header, b)
    &&& p.voicemeeter_type == b[28]
    &&& p.reserved == b[29]
    &&& p.buffer_size == u16_le_at(b, 30)
    &&& p.voicemeeter_version_raw@ == b.subrange(32, 36)
    &&& p.options == u32_le_at(b, 36)
    &&& p.sample_rate == u32_le_at(b, 40)
    &&& forall|i: int| 0 <= i < 34 ==> p.input_levels_raw@[i] == u16_le_at(b, 44 + 2 * i)
    &&& forall|i: int| 0 <= i < 64 ==> p.output_levels_raw@[i] == u16_le_at(b, 112 + 2 * i)
    &&& p.transport == u32_le_at(b, 240)
    &&& forall|i: int| 0 <= i < 8 ==> p.strip_state@[i] == u32_le_at(b, 244 + 4 * i)
    &&& forall|i: int| 0 <= i < 8 ==> p.bus_state@[i] == u32_le_at(b, 276 + 4 * i)
    &&& forall|i: int| 0 <= i < 8 ==> p.strip_gain_layer_1_raw@[i] == i16_le_at(b, 308 + 2 * i)
    &&& forall|i: int| 0 <= i < 8 ==> p.strip_gain_layer_2_raw@[i] == i16_le_at(b, 324 + 2 * i)
    &&& forall|i: int| 0 <= i < 8 ==> p.strip_gain_layer_3_raw@[i] == i16_le_at(b, 340 + 2 * i)
    &&& forall|i: int| 0 <= i < 8 ==> p.strip_gain_layer_4_raw@[i] == i16_le_at(b, 356 + 2 * i)
    &&& forall|i: int| 0 <= i < 8 ==> p.strip_gain_layer_5_raw@[i] == i16_le_at(b, 372 + 2 * i)
    &&& forall|i: int| 0 <= i < 8 ==> p.strip_gain_layer_6_raw@[i] == i16_le_at(b, 388 + 2 * i)
    &&& forall|i: int| 0 <= i < 8 ==> p.strip_gain_layer_7_raw@[i] == i16_le_at(b, 404 + 2 * i)
    &&& forall|i: int| 0 <= i < 8 ==> p.strip_gain_layer_8_raw@[i] == i16_le_at(b, 420 + 2 * i)
    &&& forall|i: int| 0 <= i < 8 ==> p.bus_gain_raw@[i] == i16_le_at(b, 436 + 2 * i)
    &&& p.strip_labels_raw@ == b.subrange(452, 932)
    &&& p.bus_labels_raw@ == b.subrange(932, 1412)
}

impl RTPacket {
    /// Parses a snapshot frame.  The caller has already checked the
    /// envelope; this reads every field at its fixed offset.
    pub fn unpack(b: &[u8]) -> (r: RTPacket)
        requires
            b@.len() == RT_PACKET_LEN,
        ensures
            spec_rt_packet_matches(r, b@),
    {
        let header = VBANServiceHeader::unpack(b);
        RTPacket {
            header,
            voicemeeter_type: b[28],
            reserved: b[29],
            buffer_size: read_u16_le(b, 30),
            voicemeeter_version_raw: read_array(b, 32),
            options: read_u32_le(b, 36),
            sample_rate: read_u32_le(b, 40),
            input_levels_raw: read_u16_array(b, 44),
            output_levels_raw: read_u16_array(b, 112),
            transport: read_u32_le(b, 240),
            strip_state: read_u32_array(b, 244),
            bus_state: read_u32_array(b, 276),
            strip_gain_layer_1_raw: read_i16_array(b, 308),
            strip_gain_layer_2_raw: read_i16_array(b, 324),
            strip_gain_layer_3_raw: read_i16_array(b, 340),
            strip_gain_layer_4_raw: read_i16_array(b, 356),
            strip_gain_layer_5_raw: read_i16_array(b, 372),
            strip_gain_layer_6_raw: read_i16_array(b, 388),
            strip_gain_layer_7_raw: read_i16_array(b, 404),
            strip_gain_layer_8_raw: read_i16_array(b, 420),
            bus_gain_raw: read_i16_array(b, 436),
            strip_labels_raw: read_array(b, 452),
            bus_labels_raw: read_array(b, 932),
        }
    }

    /// Mixer version, most significant byte first.
    pub fn voicemeeter_version(&self) -> (r: [u8; 4])
        ensures
            r@ =~= seq![
                self.voicemeeter_version_raw@[3],
                self.voicemeeter_version_raw@[2],
                self.voicemeeter_version_raw@[1],
                self.voicemeeter_version_raw@[0],
            ],
    {
        let raw = &self.voicemeeter_version_raw;
        let out: [u8; 4] = [raw[3], raw[2], raw[1], raw[0]];
        assert(out@ =~= seq![raw@[3], raw@[2], raw@[1], raw@[0]]);
        out
    }

    /// Raw per-strip gains of the first layer, in hundredths of dB.
    pub fn input_gains(&self) -> (r: [i16; 8])
        ensures
            r@ == self.strip_gain_layer_1_raw@,
    {
        self.strip_gain_layer_1_raw
    }

    /// Raw per-bus gains, in hundredths of dB.
    pub fn output_gains(&self) -> (r: [i16; 8])
        ensures
            r@ == self.bus_gain_raw@,
    {
        self.bus_gain_raw
    }

    /// Normalized level pairs of the eight input strips.
    pub fn input_levels(&self) -> (r: [[u16; 2]; 8])
        ensures
            forall|i: int| 0 <= i < 8 ==> (#[trigger] r@[i])[0] == spec_input_level_a(
                self.input_levels_raw@,
                i,
            ) && r@[i][1] == spec_input_level_b(self.input_levels_raw@, i),
    {
        let raw = &self.input_levels_raw;
        let mut out: [[u16; 2]; 8] = [[0; 2]; 8];
        let mut i: usize = 0;
        while i < 5
            invariant
                i <= 5,
                forall|j: int| 0 <= j < i ==> (#[trigger] out@[j])[0] == spec_input_level_a(
                    self.input_levels_raw@,
                    j,
                ) && out@[j][1] == spec_input_level_b(self.input_levels_raw@, j),
                raw == &self.input_levels_raw,
            decreases 5 - i,
        {
            out[i] = [normalize_level(raw[2 * i]), normalize_level(raw[2 * i + 1])];
            i = i + 1;
        }
        let mut i: usize = 0;
        while i < 3
            invariant
                i <= 3,
                forall|j: int| 0 <= j < 5 + i ==> (#[trigger] out@[j])[0] == spec_input_level_a(
                    self.input_levels_raw@,
                    j,
                ) && out@[j][1] == spec_input_level_b(self.input_levels_raw@, j),
                raw == &self.input_levels_raw,
            decreases 3 - i,
        {
            out[i + 5] = [normalize_level(raw[10 + 8 * i]), normalize_level(raw[10 + 8 * i + 1])];
            i = i + 1;
        }
        out
    }

    /// Normalized level pairs of the eight output buses.
    pub fn output_levels(&self) -> (r: [[u16; 2]; 8])
        ensures
            forall|i: int| 0 <= i < 8 ==> (#[trigger] r@[i])[0] == spec_output_level_a(
                self.output_levels_raw@,
                i,
            ) && r@[i][1] == spec_output_level_b(self.output_levels_raw@, i),
    {
        let raw = &self.output_levels_raw;
        let mut out: [[u16; 2]; 8] = [[0; 2]; 8];
        let mut i: usize = 0;
        while i < 5
            invariant
                i <= 5,
                forall|j: int| 0 <= j < i ==> (#[trigger] out@[j])[0] == spec_output_level_a(
                    self.output_levels_raw@,
                    j,
                ) && out@[j][1] == spec_output_level_b(self.output_levels_raw@, j),
                raw == &self.output_levels_raw,
            decreases 5 - i,
        {
            out[i] = [normalize_level(raw[8 * i]), normalize_level(raw[8 * i + 1])];
            i = i + 1;
        }
        let mut i: usize = 0;
        while i < 3
            invariant
                i <= 3,
                forall|j: int| 0 <= j < 5 + i ==> (#[trigger] out@[j])[0] == spec_output_level_a(
                    self.output_levels_raw@,
                    j,
                ) && out@[j][1] == spec_output_level_b(self.output_levels_raw@, j),
                raw == &self.output_levels_raw,
            decreases 3 - i,
        {
            out[i + 5] = [normalize_level(raw[40 + 8 * i]), normalize_level(raw[40 + 8 * i + 1])];
            i = i + 1;
        }
        out
    }

    /// Meter value of input strip `i`.
    pub open spec fn spec_input_meter(self, i: int) -> int {
        spec_meter(
            spec_input_level_a(self.input_levels_raw@, i),
            spec_input_level_b(self.input_levels_raw@, i),
        )
    }

    /// Meter value of output bus `i`.
    pub open spec fn spec_output_meter(self, i: int) -> int {
        spec_meter(
            spec_output_level_a(self.output_levels_raw@, i),
            spec_output_level_b(self.output_levels_raw@, i),
        )
    }

    /// Meter values of the eight input strips, each within the
    /// 16-segment scale `[0, 15]`.
    pub fn input_meters(&self) -> (r: [i16; 8])
        ensures
            forall|i: int| 0 <= i < 8 ==> r@[i] == self.spec_input_meter(i),
            forall|i: int| 0 <= i < 8 ==> 0 <= #[trigger] r@[i] <= 15,
    {
        let levels = self.input_levels();
        let r = Self::levels_to_meters(levels);
        assert forall|i: int| 0 <= i < 8 implies r@[i] == self.spec_input_meter(i) by {
            assert((levels@[i])[0] == spec_input_level_a(self.input_levels_raw@, i));
            assert((levels@[i])[1] == spec_input_level_b(self.input_levels_raw@, i));
        }
        r
    }

    /// Meter values of the eight output buses, each within the
    /// 16-segment scale `[0, 15]`.
    pub fn output_meters(&self) -> (r: [i16; 8])
        ensures
            forall|i: int| 0 <= i < 8 ==> r@[i] == self.spec_output_meter(i),
            forall|i: int| 0 <= i < 8 ==> 0 <= #[trigger] r@[i] <= 15,
    {
        let levels = self.output_levels();
        let r = Self::levels_to_meters(levels);
        assert forall|i: int| 0 <= i < 8 implies r@[i] == self.spec_output_meter(i) by {
            assert((levels@[i])[0] == spec_output_level_a(self.output_levels_raw@, i));
            assert((levels@[i])[1] == spec_output_level_b(self.output_levels_raw@, i));
        }
        r
    }

    fn levels_to_meters(levels: [[u16; 2]; 8]) -> (r: [i16; 8])
        ensures
            forall|i: int| 0 <= i < 8 ==> r@[i] == spec_meter(
                (#[trigger] levels@[i])[0],
                levels@[i][1],
            ),
            forall|i: int| 0 <= i < 8 ==> 0 <= #[trigger] r@[i] <= 15,
    {
        let mut out: [i16; 8] = [0; 8];
        let mut i: usize = 0;
        while i < 8
            invariant
                i <= 8,
                forall|j: int| 0 <= j < i ==> out@[j] == spec_meter(
                    (#[trigger] levels@[j])[0],
                    levels@[j][1],
                ),
                forall|j: int| 0 <= j < i ==> 0 <= #[trigger] out@[j] <= 15,
            decreases 8 - i,
        {
            let pair = levels[i];
            out[i] = meter_from_pair(pair[0], pair[1]);
            proof {
                lemma_meter_value_bounds(pair@[0], pair@[1]);
            }
            i = i + 1;
        }
        out
    }

    fn format_labels(raw: &[u8; 480]) -> (r: [[u8; 60]; 8])
        ensures
            forall|i: int| 0 <= i < 8 ==> (#[trigger] r@[i])@ == raw@.subrange(60 * i, 60 * i + 60),
    {
        let s: &[u8] = raw.as_slice();
        let mut out: [[u8; 60]; 8] = [[0; 60]; 8];
        let mut i: usize = 0;
        while i < 8
            invariant
                i <= 8,
                s@ == raw@,
                forall|j: int| 0 <= j < i ==> (#[trigger] out@[j])@ == raw@.subrange(
                    60 * j,
                    60 * j + 60,
                ),
            decreases 8 - i,
        {
            let slot: [u8; 60] = read_array(s, 60 * i);
            out[i] = slot;
            i = i + 1;
        }
        out
    }

    /// The eight 60-byte label slots of the input strips.
    pub fn strip_labels(&self) -> (r: [[u8; 60]; 8])
        ensures
            forall|i: int| 0 <= i < 8 ==> (#[trigger] r@[i])@ == self.strip_labels_raw@.subrange(
                60 * i,
                60 * i + 60,
            ),
    {
        Self::format_labels(&self.strip_labels_raw)
    }

    /// The eight 60-byte label slots of the output buses.
    pub fn bus_labels(&self) -> (r: [[u8; 60]; 8])
        ensures
            forall|i: int| 0 <= i < 8 ==> (#[trigger] r@[i])@ == self.bus_labels_raw@.subrange(
                60 * i,
                60 * i + 60,
            ),
    {
        Self::format_labels(&self.bus_labels_raw)
    }
}

} // verus!
