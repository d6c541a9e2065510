//! Control-surface frame codec.
//!
//! Every outbound message to the surface is a SysEx-style frame: a start
//! byte `0xF0`, a small fixed-purpose payload (meter, fader, button or
//! display update), and an end byte `0xF7`.  Each frame type has a spec
//! function giving its exact byte layout, an executable encoder proved
//! against it, and a hex-string form for the outbound transport queue.

use vstd::prelude::*;
use crate::hexcodec::{hex_encode, hex_str_of};

verus! {

/// Meter strip update: channel id `0..8` and a level.
#[derive(Clone, Copy, Debug)]
pub struct XctrlMeter {
    pub id: u8,
    pub level: u8,
}

impl XctrlMeter {
    /// Wire layout: `F0 D0 ((level/2)+(id*0x10)) F7`.
    pub open spec fn spec_bytes(self) -> Seq<u8> {
        seq![0xf0u8, 0xd0u8, (self.level / 2 + self.id * 0x10) as u8, 0xf7u8]
    }

    pub fn as_bytes(&self) -> (r: [u8; 4])
        requires
            self.id < 8,
        ensures
            r@ == self.spec_bytes(),
    {
        let normalised_level: u8 = (self.level / 2) + (self.id * 0x10);
        let out: [u8; 4] = [0xf0, 0xd0, normalised_level, 0xf7];
        assert(out@ =~= self.spec_bytes());
        out
    }

    pub fn as_str(&self) -> (r: String)
        requires
            self.id < 8,
        ensures
            r@ == hex_str_of(self.spec_bytes()),
    {
        let bytes: [u8; 4] = self.as_bytes();
        hex_encode(bytes.as_slice())
    }
}

/// Fader position update: fader id `0..9` (eight channels and the master)
/// and a 14-bit-style position carried little-endian.
#[derive(Clone, Copy, Debug)]
pub struct XctrlFader {
    pub id: u8,
    pub level: u16,
}

impl XctrlFader {
    /// Wire layout: `F0 (E0+id) low high F7`, level little-endian.
    pub open spec fn spec_bytes(self) -> Seq<u8> {
        seq![
            0xf0u8,
            (0xe0 + self.id) as u8,
            (self.level % 256) as u8,
            (self.level / 256) as u8,
            0xf7u8,
        ]
    }

    pub fn as_bytes(&self) -> (r: [u8; 5])
        requires
            self.id < 9,
        ensures
            r@ == self.spec_bytes(),
    {
        let low: u8 = (self.level % 256) as u8;
        let high: u8 = (self.level / 256) as u8;
        let out: [u8; 5] = [0xf0, 0xe0 + self.id, low, high, 0xf7];
        assert(out@ =~= self.spec_bytes());
        out
    }

    pub fn as_str(&self) -> (r: String)
        requires
            self.id < 9,
        ensures
            r@ == hex_str_of(self.spec_bytes()),
    {
        let bytes: [u8; 5] = self.as_bytes();
        hex_encode(bytes.as_slice())
    }
}

/// Button state update: raw wire id and a state byte (0 off, 127 lit).
#[derive(Clone, Copy, Debug)]
pub struct XctrlButton {
    pub id: u8,
    pub state: u8,
}

impl XctrlButton {
    /// Wire layout: `F0 90 id state F7`.
    pub open spec fn spec_bytes(self) -> Seq<u8> {
        seq![0xf0u8, 0x90u8, self.id, self.state, 0xf7u8]
    }

    pub fn as_bytes(&self) -> (r: [u8; 5])
        ensures
            r@ == self.spec_bytes(),
    {
        let out: [u8; 5] = [0xf0, 0x90, self.id, self.state, 0xf7];
        assert(out@ =~= self.spec_bytes());
        out
    }

    pub fn as_str(&self) -> (r: String)
        ensures
            r@ == hex_str_of(self.spec_bytes()),
    {
        let bytes: [u8; 5] = self.as_bytes();
        hex_encode(bytes.as_slice())
    }
}

/// Display colors understood by the surface's scribble strips.
#[derive(Clone, Copy, Debug, PartialEq, Eq, Structural)]
pub enum XctrlDisplayColor {
    Off,
    Red,
    Green,
    Yellow,
    Blue,
    Pink,
    Cyan,
    White,
    RedInv,
    GreenInv,
    YellowInv,
    BlueInv,
    PinkInv,
    CyanInv,
    WhiteInv,
}

impl XctrlDisplayColor {
    /// Wire code of the color; the inverted variants set bit 6.
    pub open spec fn spec_code(self) -> u8 {
        match self {
            XctrlDisplayColor::Off => 0x00,
            XctrlDisplayColor::Red => 0x01,
            XctrlDisplayColor::Green => 0x02,
            XctrlDisplayColor::Yellow => 0x03,
            XctrlDisplayColor::Blue => 0x04,
            XctrlDisplayColor::Pink => 0x05,
            XctrlDisplayColor::Cyan => 0x06,
            XctrlDisplayColor::White => 0x07,
            XctrlDisplayColor::RedInv => 0x41,
            XctrlDisplayColor::GreenInv => 0x42,
            XctrlDisplayColor::YellowInv => 0x43,
            XctrlDisplayColor::BlueInv => 0x44,
            XctrlDisplayColor::PinkInv => 0x45,
            XctrlDisplayColor::CyanInv => 0x46,
            XctrlDisplayColor::WhiteInv => 0x47,
        }
    }

    pub fn code(&self) -> (r: u8)
        ensures
            r == self.spec_code(),
    {
        match self {
            XctrlDisplayColor::Off => 0x00,
            XctrlDisplayColor::Red => 0x01,
            XctrlDisplayColor::Green => 0x02,
            XctrlDisplayColor::Yellow => 0x03,
            XctrlDisplayColor::Blue => 0x04,
            XctrlDisplayColor::Pink => 0x05,
            XctrlDisplayColor::Cyan => 0x06,
            XctrlDisplayColor::White => 0x07,
            XctrlDisplayColor::RedInv => 0x41,
            XctrlDisplayColor::GreenInv => 0x42,
            XctrlDisplayColor::YellowInv => 0x43,
            XctrlDisplayColor::BlueInv => 0x44,
            XctrlDisplayColor::PinkInv => 0x45,
            XctrlDisplayColor::CyanInv => 0x46,
            XctrlDisplayColor::WhiteInv => 0x47,
        }
    }
}

/// One scribble-strip display: strip id `0..8`, color code, and two rows of
/// seven ASCII bytes.
#[derive(Clone, Copy, Debug)]
pub struct XctrlDisplay {
    pub id: u8,
    pub color: u8,
    pub top_text: [u8; 7],
    pub bottom_text: [u8; 7],
}

impl XctrlDisplay {
    /// Wire layout: `F0 00 00 66 58 (id+0x20) color top[7] bottom[7] F7`.
    pub open spec fn spec_bytes(self) -> Seq<u8> {
        seq![0xf0u8, 0x00u8, 0x00u8, 0x66u8, 0x58u8, (self.id + 0x20) as u8, self.color]
            + self.top_text@ + self.bottom_text@ + seq![0xf7u8]
    }

    /// Builds a display from the first seven bytes of each text row.
    pub fn new(id: u8, color: XctrlDisplayColor, top_text: &[u8], bottom_text: &[u8]) -> (r:
        XctrlDisplay)
        requires
            top_text@.len() >= 7,
            bottom_text@.len() >= 7,
        ensures
            r.id == id,
            r.color == color.spec_code(),
            r.top_text@ == top_text@.subrange(0, 7),
            r.bottom_text@ == bottom_text@.subrange(0, 7),
    {
        let mut top: [u8; 7] = [0; 7];
        let mut bottom: [u8; 7] = [0; 7];

        let mut i: usize = 0;
        while i < 7
            invariant
                i <= 7,
                top_text@.len() >= 7,
                bottom_text@.len() >= 7,
                forall|j: int| 0 <= j < i ==> top@[j] == top_text@[j],
                forall|j: int| 0 <= j < i ==> bottom@[j] == bottom_text@[j],
            decreases 7 - i,
        {
            top[i] = top_text[i];
            bottom[i] = bottom_text[i];
            i = i + 1;
        }

        let r = XctrlDisplay { id, color: color.code(), top_text: top, bottom_text: bottom };
        assert(r.top_text@ =~= top_text@.subrange(0, 7));
        assert(r.bottom_text@ =~= bottom_text@.subrange(0, 7));
        r
    }

    pub fn as_bytes(&self) -> (r: [u8; 22])
        requires
            self.id < 8,
        ensures
            r@ == self.spec_bytes(),
    {
        let mut out: [u8; 22] = [0; 22];
        out[0] = 0xf0;
        out[3] = 0x66;
        out[4] = 0x58;
        out[5] = self.id + 0x20;
        out[6] = self.color;
        out[21] = 0xf7;

        let mut i: usize = 0;
        while i < 7
            invariant
                i <= 7,
                out@.len() == 22,
                out@[0] == 0xf0u8,
                out@[1] == 0x00u8,
                out@[2] == 0x00u8,
                out@[3] == 0x66u8,
                out@[4] == 0x58u8,
                out@[5] == (self.id + 0x20) as u8,
                out@[6] == self.color,
                out@[21] == 0xf7u8,
                forall|j: int| 0 <= j < i ==> out@[7 + j] == self.top_text@[j],
                forall|j: int| 0 <= j < i ==> out@[14 + j] == self.bottom_text@[j],
            decreases 7 - i,
        {
            out[i + 7] = self.top_text[i];
            out[i + 14] = self.bottom_text[i];
            i = i + 1;
        }

        assert(out@ =~= self.spec_bytes());
        out
    }

    pub fn as_str(&self) -> (r: String)
        requires
            self.id < 8,
        ensures
            r@ == hex_str_of(self.spec_bytes()),
    {
        let bytes: [u8; 22] = self.as_bytes();
        hex_encode(bytes.as_slice())
    }
}

/// Button categories of the surface, each mapped to the raw wire id of its
/// first button.  Categories with several buttons (eight channel buttons,
/// two bank buttons, eight function keys) occupy a contiguous id range
/// starting at that base.
#[derive(Clone, Copy, Debug, PartialEq, Eq, Structural)]
pub enum XctrlButtonType {
    Rec,
    Solo,
    Mute,
    Select,
    Encoder,
    Track,
    Send,
    Pan,
    PlugIn,
    Eq,
    Inst,
    FaderBank,
    ChannelBank,
    Flip,
    GlobalView,
    Display,
    Reserved,
    Function,
    MidiTracks,
    Inputs,
    AudioTracks,
    AudioInst,
    Aux,
    Buses,
    Outputs,
    User,
    Shift,
    Option,
    Control,
    Alt,
    ReadOff,
    Write,
    Trim,
    Touch,
    Latch,
    Group,
    Save,
    Undo,
    Cancel,
    Enter,
}

impl XctrlButtonType {
    /// Raw wire id of the category's first button.
    pub open spec fn spec_base_id(self) -> u8 {
        match self {
            XctrlButtonType::Rec => 0x00,
            XctrlButtonType::Solo => 0x08,
            XctrlButtonType::Mute => 0x10,
            XctrlButtonType::Select => 0x18,
            XctrlButtonType::Encoder => 0x20,
            XctrlButtonType::Track => 0x28,
            XctrlButtonType::Send => 0x29,
            XctrlButtonType::Pan => 0x2a,
            XctrlButtonType::PlugIn => 0x2b,
            XctrlButtonType::Eq => 0x2c,
            XctrlButtonType::Inst => 0x2d,
            XctrlButtonType::FaderBank => 0x2e,
            XctrlButtonType::ChannelBank => 0x30,
            XctrlButtonType::Flip => 0x32,
            XctrlButtonType::GlobalView => 0x33,
            XctrlButtonType::Display => 0x34,
            XctrlButtonType::Reserved => 0x35,
            XctrlButtonType::Function => 0x36,
            XctrlButtonType::MidiTracks => 0x3e,
            XctrlButtonType::Inputs => 0x3f,
            XctrlButtonType::AudioTracks => 0x40,
            XctrlButtonType::AudioInst => 0x41,
            XctrlButtonType::Aux => 0x42,
            XctrlButtonType::Buses => 0x43,
            XctrlButtonType::Outputs => 0x44,
            XctrlButtonType::User => 0x45,
            XctrlButtonType::Shift => 0x46,
            XctrlButtonType::Option => 0x47,
            XctrlButtonType::Control => 0x48,
            XctrlButtonType::Alt => 0x49,
            XctrlButtonType::ReadOff => 0x4a,
            XctrlButtonType::Write => 0x4b,
            XctrlButtonType::Trim => 0x4c,
            XctrlButtonType::Touch => 0x4d,
            XctrlButtonType::Latch => 0x4e,
            XctrlButtonType::Group => 0x4f,
            XctrlButtonType::Save => 0x50,
            XctrlButtonType::Undo => 0x51,
            XctrlButtonType::Cancel => 0x52,
            XctrlButtonType::Enter => 0x53,
        }
    }

    pub fn base_id(&self) -> (r: u8)
        ensures
            r == self.spec_base_id(),
    {
        match self {
            XctrlButtonType::Rec => 0x00,
            XctrlButtonType::Solo => 0x08,
            XctrlButtonType::Mute => 0x10,
            XctrlButtonType::Select => 0x18,
            XctrlButtonType::Encoder => 0x20,
            XctrlButtonType::Track => 0x28,
            XctrlButtonType::Send => 0x29,
            XctrlButtonType::Pan => 0x2a,
            XctrlButtonType::PlugIn => 0x2b,
            XctrlButtonType::Eq => 0x2c,
            XctrlButtonType::Inst => 0x2d,
            XctrlButtonType::FaderBank => 0x2e,
            XctrlButtonType::ChannelBank => 0x30,
            XctrlButtonType::Flip => 0x32,
            XctrlButtonType::GlobalView => 0x33,
            XctrlButtonType::Display => 0x34,
            XctrlButtonType::Reserved => 0x35,
            XctrlButtonType::Function => 0x36,
            XctrlButtonType::MidiTracks => 0x3e,
            XctrlButtonType::Inputs => 0x3f,
            XctrlButtonType::AudioTracks => 0x40,
            XctrlButtonType::AudioInst => 0x41,
            XctrlButtonType::Aux => 0x42,
            XctrlButtonType::Buses => 0x43,
            XctrlButtonType::Outputs => 0x44,
            XctrlButtonType::User => 0x45,
            XctrlButtonType::Shift => 0x46,
            XctrlButtonType::Option => 0x47,
            XctrlButtonType::Control => 0x48,
            XctrlButtonType::Alt => 0x49,
            XctrlButtonType::ReadOff => 0x4a,
            XctrlButtonType::Write => 0x4b,
            XctrlButtonType::Trim => 0x4c,
            XctrlButtonType::Touch => 0x4d,
            XctrlButtonType::Latch => 0x4e,
            XctrlButtonType::Group => 0x4f,
            XctrlButtonType::Save => 0x50,
            XctrlButtonType::Undo => 0x51,
            XctrlButtonType::Cancel => 0x52,
            XctrlButtonType::Enter => 0x53,
        }
    }
}

/// Number of buttons the surface exposes; their raw wire ids are exactly
/// `0..84`, the category bases above filling that range without a gap.
pub const BUTTON_COUNT: usize = 84;

/// Everything one surface page shows: eight scribble-strip displays, eight
/// meters, eight channel faders plus the master fader, and every button.
#[derive(Clone, Copy)]
pub struct XctrlState {
    pub displays: [XctrlDisplay; 8],
    pub meters: [XctrlMeter; 8],
    pub faders: [XctrlFader; 9],
    pub buttons: [XctrlButton; 84],
}

impl XctrlState {
    /// Every display, meter, fader and button keyed by its own position:
    /// the shape every page keeps for its whole lifetime.
    pub open spec fn wf(self) -> bool {
        &&& forall|i: int| 0 <= i < 8 ==> (#[trigger] self.displays@[i]).id == i
        &&& forall|i: int| 0 <= i < 8 ==> (#[trigger] self.meters@[i]).id == i
        &&& forall|i: int| 0 <= i < 9 ==> (#[trigger] self.faders@[i]).id == i
    }

    /// The page `new` builds: blank white displays, meters and faders at
    /// zero, every button released.
    pub open spec fn spec_initial(self) -> bool {
        &&& forall|i: int| 0 <= i < 8 ==> {
            &&& (#[trigger] self.displays@[i]).id == i
            &&& self.displays@[i].color == XctrlDisplayColor::White.spec_code()
            &&& self.displays@[i].top_text@ =~= Seq::new(7, |j: int| 0u8)
            &&& self.displays@[i].bottom_text@ =~= Seq::new(7, |j: int| 0u8)
        }
        &&& forall|i: int| 0 <= i < 8 ==> (#[trigger] self.meters@[i]) == (XctrlMeter {
            id: i as u8,
            level: 0,
        })
        &&& forall|i: int| 0 <= i < 9 ==> (#[trigger] self.faders@[i]) == (XctrlFader {
            id: i as u8,
            level: 0,
        })
        &&& forall|i: int| 0 <= i < 84 ==> (#[trigger] self.buttons@[i]) == (XctrlButton {
            id: i as u8,
            state: 0,
        })
    }

    /// A page with every control at rest: blank white displays, meters and
    /// faders at zero, every button released, each element keyed by its
    /// position.
    pub fn new() -> (r: Self)
        ensures
            r.spec_initial(),
            r.wf(),
    {
        let blank: [u8; 7] = [0; 7];
        assert(blank@ =~= Seq::new(7, |k: int| 0u8));
        let mut displays: [XctrlDisplay; 8] = [XctrlDisplay {
            id: 0,
            color: 0x07,
            top_text: blank,
            bottom_text: blank,
        }; 8];
        let mut meters: [XctrlMeter; 8] = [XctrlMeter { id: 0, level: 0 }; 8];
        let mut faders: [XctrlFader; 9] = [XctrlFader { id: 0, level: 0 }; 9];
        let mut buttons: [XctrlButton; 84] = [XctrlButton { id: 0, state: 0 }; 84];

        let mut i: usize = 0;
        while i < 8
            invariant
                i <= 8,
                blank@ =~= Seq::new(7, |k: int| 0u8),
                forall|j: int| 0 <= j < i ==> (#[trigger] displays@[j]).id == j,
                forall|j: int| 0 <= j < 8 ==> {
                    &&& (#[trigger] displays@[j]).color == 0x07u8
                    &&& displays@[j].top_text@ =~= Seq::new(7, |k: int| 0u8)
                    &&& displays@[j].bottom_text@ =~= Seq::new(7, |k: int| 0u8)
                },
                forall|j: int| 0 <= j < i ==> (#[trigger] meters@[j]).id == j,
                forall|j: int| 0 <= j < 8 ==> (#[trigger] meters@[j]).level == 0u8,
            decreases 8 - i,
        {
            displays[i] = XctrlDisplay {
                id: i as u8,
                color: 0x07,
                top_text: blank,
                bottom_text: blank,
            };
            meters[i] = XctrlMeter { id: i as u8, level: 0 };
            i = i + 1;
        }

        let mut i: usize = 0;
        while i < 9
            invariant
                i <= 9,
                forall|j: int| 0 <= j < i ==> (#[trigger] faders@[j]).id == j,
                forall|j: int| 0 <= j < 9 ==> (#[trigger] faders@[j]).level == 0u16,
            decreases 9 - i,
        {
            faders[i] = XctrlFader { id: i as u8, level: 0 };
            i = i + 1;
        }

        let mut i: usize = 0;
        while i < 84
            invariant
                i <= 84,
                forall|j: int| 0 <= j < i ==> (#[trigger] buttons@[j]).id == j,
                forall|j: int| 0 <= j < 84 ==> (#[trigger] buttons@[j]).state == 0u8,
            decreases 84 - i,
        {
            buttons[i] = XctrlButton { id: i as u8, state: 0 };
            i = i + 1;
        }

        XctrlState { displays, meters, faders, buttons }
    }
}

/// Kind of physical control an inbound surface message comes from, selected
/// by the top nibble of its first byte.
#[derive(Clone, Copy, Debug, PartialEq, Eq, Structural)]
pub enum XctrlInterface {
    Encoder,
    Button,
    Fader,
    Unknown,
}

impl XctrlInterface {
    /// Mapping from the top nibble of an inbound message's first byte.
    pub open spec fn spec_from(val: u8) -> XctrlInterface {
        if val == 0xb {
            XctrlInterface::Encoder
        } else if val == 0x9 {
            XctrlInterface::Button
        } else if val == 0xe {
            XctrlInterface::Fader
        } else {
            XctrlInterface::Unknown
        }
    }

    pub fn from(val: u8) -> (r: Self)
        ensures
            r == XctrlInterface::spec_from(val),
    {
        match val {
            0xb => XctrlInterface::Encoder,
            0x9 => XctrlInterface::Button,
            0xe => XctrlInterface::Fader,
            _ => XctrlInterface::Unknown,
        }
    }
}

/// Decoded inbound surface message: the control kind, which control, the
/// decoded value, and the raw three-byte body it came from.
#[derive(Clone, Copy, Debug)]
pub struct XctrlStateUpdate {
    pub interface_type: XctrlInterface,
    pub id: u8,
    pub value: u16,
    pub raw_message: [u8; 3],
}

} // verus!
