//! State synchronization engine.
//!
//! The engine keeps two surface pages — page 0 mirrors the mixer's input
//! strips, page 1 its output buses — and one active-page selector.  Typed
//! events move it forward: a connection event may force a full fader
//! resend, a surface control event may switch pages and is always
//! forwarded to the mixer as a control envelope, and a mixer snapshot
//! refreshes both pages.  A rate-limited flush serializes the active page
//! for the surface.  Wall-clock time enters only as millisecond values
//! supplied by the caller.

use vstd::prelude::*;
use crate::hexcodec::{hex_encode, hex_str_of};
use crate::processor::StateUpdate;
use crate::vban::{
    fader_position, lemma_meter_value_bounds, midi_frame, spec_fader_position, spec_label_blank,
    spec_label_bottom, spec_label_top, spec_midi_packet_bytes, RTPacket,
};
use crate::xctrl::{
    XctrlButton, XctrlDisplay, XctrlFader, XctrlInterface, XctrlMeter, XctrlState,
    XctrlStateUpdate,
};

verus! {

/// Per-channel state bits of a strip or bus mask.
#[derive(Clone, Copy, Debug, PartialEq, Eq, Structural)]
pub enum VbanStripFlags {
    Mute,
    Solo,
    Mono,
}

impl VbanStripFlags {
    /// Bit of the flag inside a channel's 32-bit state mask.
    pub open spec fn spec_mask(self) -> u32 {
        match self {
            VbanStripFlags::Mute => 0x01,
            VbanStripFlags::Solo => 0x02,
            VbanStripFlags::Mono => 0x04,
        }
    }

    pub fn mask(&self) -> (r: u32)
        ensures
            r == self.spec_mask(),
    {
        match self {
            VbanStripFlags::Mute => 0x01,
            VbanStripFlags::Solo => 0x02,
            VbanStripFlags::Mono => 0x04,
        }
    }

    /// Index of the flag's first button on a page: the rec band shows the
    /// mono bit, then solo, then mute, eight buttons each.
    pub open spec fn spec_base_index(self) -> usize {
        match self {
            VbanStripFlags::Mute => 16,
            VbanStripFlags::Solo => 8,
            VbanStripFlags::Mono => 0,
        }
    }

    pub fn base_index(&self) -> (r: usize)
        ensures
            r == self.spec_base_index(),
    {
        match self {
            VbanStripFlags::Mute => 16,
            VbanStripFlags::Solo => 8,
            VbanStripFlags::Mono => 0,
        }
    }

}

/// True when display `d` shows slot `i` of the label block `labels`: the
/// first seven slot bytes on top, the next seven below, color "Off" for
/// an all-zero slot and the page's context color otherwise.
pub open spec fn spec_display_set(d: XctrlDisplay, labels: Seq<u8>, i: int, ctx_color: u8) -> bool {
    &&& d.id == i
    &&& d.color == (if spec_label_blank(labels, i) {
        0u8
    } else {
        ctx_color
    })
    &&& d.top_text@ == spec_label_top(labels, i)
    &&& d.bottom_text@ == spec_label_bottom(labels, i)
}

/// Button `i` after a snapshot applied the flag masks: the first three
/// eight-button bands (rec from the mono bit, solo, mute) follow the
/// per-channel mask, every other button keeps its previous state.
pub open spec fn spec_button_flags_after(
    old_buttons: Seq<XctrlButton>,
    flags: Seq<u32>,
    i: int,
) -> XctrlButton {
    if 0 <= i < 8 {
        XctrlButton {
            id: i as u8,
            state: if (flags[i] & 0x04u32) == 0x04u32 {
                127u8
            } else {
                0u8
            },
        }
    } else if 8 <= i < 16 {
        XctrlButton {
            id: i as u8,
            state: if (flags[i - 8] & 0x02u32) == 0x02u32 {
                127u8
            } else {
                0u8
            },
        }
    } else if 16 <= i < 24 {
        XctrlButton {
            id: i as u8,
            state: if (flags[i - 16] & 0x01u32) == 0x01u32 {
                127u8
            } else {
                0u8
            },
        }
    } else {
        old_buttons[i]
    }
}

/// True when some channel fader of `page` differs from the position the
/// gains dictate — the condition that marks the fader batch dirty.
pub open spec fn spec_faders_changed(page: XctrlState, gains: Seq<i16>) -> bool {
    exists|i: int|
        0 <= i < 8 && (#[trigger] page.faders@[i]).level != spec_fader_position(gains[i] as int)
}

fn update_displays(page: &mut XctrlState, labels: &[u8; 480], ctx_color: u8)
    ensures
        forall|i: int| 0 <= i < 8 ==> spec_display_set(
            (#[trigger] final(page).displays@[i]),
            labels@,
            i,
            ctx_color,
        ),
        final(page).meters == old(page).meters,
        final(page).faders == old(page).faders,
        final(page).buttons == old(page).buttons,
{
    let mut i: usize = 0;
    while i < 8
        invariant
            i <= 8,
            forall|j: int| 0 <= j < i ==> spec_display_set(
                (#[trigger] page.displays@[j]),
                labels@,
                j,
                ctx_color,
            ),
            page.meters == old(page).meters,
            page.faders == old(page).faders,
            page.buttons == old(page).buttons,
        decreases 8 - i,
    {
        let base: usize = 60 * i;
        let mut blank: bool = true;
        let mut k: usize = 0;
        while k < 14
            invariant
                k <= 14,
                base == 60 * i,
                i < 8,
                blank <==> (forall|m: int| 0 <= m < k ==> #[trigger] labels@[60 * i + m] == 0),
            decreases 14 - k,
        {
            if labels[base + k] != 0 {
                blank = false;
            }
            k = k + 1;
        }
        let color: u8 = if blank {
            0x00
        } else {
            ctx_color
        };
        let mut top: [u8; 7] = [0; 7];
        let mut bottom: [u8; 7] = [0; 7];
        let mut k: usize = 0;
        while k < 7
            invariant
                k <= 7,
                base == 60 * i,
                i < 8,
                forall|m: int| 0 <= m < k ==> top@[m] == #[trigger] labels@[60 * i + m],
                forall|m: int| 0 <= m < k ==> bottom@[m] == #[trigger] labels@[60 * i + 7 + m],
            decreases 7 - k,
        {
            top[k] = labels[base + k];
            bottom[k] = labels[base + 7 + k];
            k = k + 1;
        }
        proof {
            assert(blank == spec_label_blank(labels@, i as int));
            assert forall|m: int| 0 <= m < 7 implies top@[m] == spec_label_top(
                labels@,
                i as int,
            )[m] by {
                assert(top@[m] == labels@[60 * (i as int) + m]);
            }
            assert(top@ =~= spec_label_top(labels@, i as int));
            assert forall|m: int| 0 <= m < 7 implies bottom@[m] == spec_label_bottom(
                labels@,
                i as int,
            )[m] by {
                assert(bottom@[m] == labels@[60 * (i as int) + 7 + m]);
            }
            assert(bottom@ =~= spec_label_bottom(labels@, i as int));
        }
        page.displays[i] = XctrlDisplay { id: i as u8, color, top_text: top, bottom_text: bottom };
        i = i + 1;
    }
}

fn update_faders(page: &mut XctrlState, gains: &[i16; 8]) -> (changed: bool)
    ensures
        forall|i: int| 0 <= i < 8 ==> (#[trigger] final(page).faders@[i]).id == i
            && final(page).faders@[i].level == spec_fader_position(gains@[i] as int),
        final(page).faders@[8] == old(page).faders@[8],
        final(page).displays == old(page).displays,
        final(page).meters == old(page).meters,
        final(page).buttons == old(page).buttons,
        changed == spec_faders_changed(*old(page), gains@),
{
    let mut changed: bool = false;
    let mut i: usize = 0;
    while i < 8
        invariant
            i <= 8,
            forall|j: int| 0 <= j < i ==> (#[trigger] page.faders@[j]).id == j
                && page.faders@[j].level == spec_fader_position(gains@[j] as int),
            forall|j: int| i <= j < 9 ==> page.faders@[j] == old(page).faders@[j],
            page.displays == old(page).displays,
            page.meters == old(page).meters,
            page.buttons == old(page).buttons,
            changed <==> (exists|j: int|
                0 <= j < i && (#[trigger] old(page).faders@[j]).level != spec_fader_position(
                    gains@[j] as int,
                )),
        decreases 8 - i,
    {
        let scaled: u16 = fader_position(gains[i]);
        if page.faders[i].level != scaled {
            changed = true;
        }
        page.faders[i] = XctrlFader { id: i as u8, level: scaled };
        i = i + 1;
    }
    changed
}

fn update_meters(page: &mut XctrlState, meters: &[i16; 8])
    requires
        forall|i: int| 0 <= i < 8 ==> 0 <= #[trigger] meters@[i] <= 13,
    ensures
        forall|i: int| 0 <= i < 8 ==> (#[trigger] final(page).meters@[i]).id == i
            && final(page).meters@[i].level == meters@[i],
        final(page).displays == old(page).displays,
        final(page).faders == old(page).faders,
        final(page).buttons == old(page).buttons,
{
    let mut i: usize = 0;
    while i < 8
        invariant
            i <= 8,
            forall|j: int| 0 <= j < 8 ==> 0 <= #[trigger] meters@[j] <= 13,
            forall|j: int| 0 <= j < i ==> (#[trigger] page.meters@[j]).id == j
                && page.meters@[j].level == meters@[j],
            page.displays == old(page).displays,
            page.faders == old(page).faders,
            page.buttons == old(page).buttons,
        decreases 8 - i,
    {
        page.meters[i] = XctrlMeter { id: i as u8, level: meters[i] as u8 };
        i = i + 1;
    }
}

fn update_buttons(page: &mut XctrlState, flags: &[u32; 8])
    ensures
        forall|i: int| 0 <= i < 84 ==> #[trigger] final(page).buttons@[i]
            == spec_button_flags_after(old(page).buttons@, flags@, i),
        final(page).displays == old(page).displays,
        final(page).meters == old(page).meters,
        final(page).faders == old(page).faders,
{
    let mute_base: usize = VbanStripFlags::Mute.base_index();
    let solo_base: usize = VbanStripFlags::Solo.base_index();
    let rec_base: usize = VbanStripFlags::Mono.base_index();
    let mut i: usize = 0;
    while i < 8
        invariant
            i <= 8,
            mute_base == 16,
            solo_base == 8,
            rec_base == 0,
            forall|j: int| 0 <= j < i ==> #[trigger] page.buttons@[j] == spec_button_flags_after(
                old(page).buttons@,
                flags@,
                j,
            ),
            forall|j: int| 0 <= j < i ==> #[trigger] page.buttons@[8 + j]
                == spec_button_flags_after(old(page).buttons@, flags@, 8 + j),
            forall|j: int| 0 <= j < i ==> #[trigger] page.buttons@[16 + j]
                == spec_button_flags_after(old(page).buttons@, flags@, 16 + j),
            forall|j: int| i <= j < 8 ==> page.buttons@[j] == old(page).buttons@[j],
            forall|j: int| i <= j < 8 ==> #[trigger] page.buttons@[8 + j] == old(page).buttons@[8 + j],
            forall|j: int| i <= j < 8 ==> #[trigger] page.buttons@[16 + j] == old(page).buttons@[16 + j],
            forall|j: int| 24 <= j < 84 ==> page.buttons@[j] == old(page).buttons@[j],
            page.displays == old(page).displays,
            page.meters == old(page).meters,
            page.faders == old(page).faders,
        decreases 8 - i,
    {
        let flag: u32 = flags[i];
        let mute_state: u8 = if (flag & 0x01) == 0x01 {
            127
        } else {
            0
        };
        let solo_state: u8 = if (flag & 0x02) == 0x02 {
            127
        } else {
            0
        };
        let rec_state: u8 = if (flag & 0x04) == 0x04 {
            127
        } else {
            0
        };
        page.buttons[mute_base + i] = XctrlButton { id: (mute_base + i) as u8, state: mute_state };
        page.buttons[solo_base + i] = XctrlButton { id: (solo_base + i) as u8, state: solo_state };
        page.buttons[rec_base + i] = XctrlButton { id: (rec_base + i) as u8, state: rec_state };
        i = i + 1;
    }
    assert forall|m: int| 0 <= m < 84 implies #[trigger] page.buttons@[m]
        == spec_button_flags_after(old(page).buttons@, flags@, m) by {
        if 8 <= m < 16 {
            assert(page.buttons@[8 + (m - 8)] == spec_button_flags_after(
                old(page).buttons@,
                flags@,
                8 + (m - 8),
            ));
        }
        if 16 <= m < 24 {
            assert(page.buttons@[16 + (m - 16)] == spec_button_flags_after(
                old(page).buttons@,
                flags@,
                16 + (m - 16),
            ));
        }
    }
}

/// Bytes of the first `n` display frames of `s`, concatenated.
pub open spec fn spec_displays_bytes(s: Seq<XctrlDisplay>, n: int) -> Seq<u8>
    decreases n,
{
    if n <= 0 {
        Seq::empty()
    } else {
        spec_displays_bytes(s, n - 1) + s[n - 1].spec_bytes()
    }
}

/// Bytes of the first `n` meter frames of `s`, concatenated.
pub open spec fn spec_meters_bytes(s: Seq<XctrlMeter>, n: int) -> Seq<u8>
    decreases n,
{
    if n <= 0 {
        Seq::empty()
    } else {
        spec_meters_bytes(s, n - 1) + s[n - 1].spec_bytes()
    }
}

/// Bytes of the first `n` fader frames of `s`, concatenated.
pub open spec fn spec_faders_bytes(s: Seq<XctrlFader>, n: int) -> Seq<u8>
    decreases n,
{
    if n <= 0 {
        Seq::empty()
    } else {
        spec_faders_bytes(s, n - 1) + s[n - 1].spec_bytes()
    }
}

/// Bytes of the first `n` button frames of `s`, concatenated.
pub open spec fn spec_buttons_bytes(s: Seq<XctrlButton>, n: int) -> Seq<u8>
    decreases n,
{
    if n <= 0 {
        Seq::empty()
    } else {
        spec_buttons_bytes(s, n - 1) + s[n - 1].spec_bytes()
    }
}

/// The control batch of a flush: all eight meter frames, and all nine
/// fader frames appended when the fader batch is dirty.
pub open spec fn spec_controls_bytes(page: XctrlState, dirty: bool) -> Seq<u8> {
    spec_meters_bytes(page.meters@, 8) + if dirty {
        spec_faders_bytes(page.faders@, 9)
    } else {
        Seq::<u8>::empty()
    }
}

/// The frame id that follows `id`: one more, wrapping at the 32-bit
/// boundary.
pub open spec fn spec_next_frame_id(id: u32) -> u32 {
    if id == 0xffffffffu32 {
        0u32
    } else {
        (id + 1) as u32
    }
}

/// True when `u` is a press (value 127) of the button with wire id `id`.
pub open spec fn spec_is_page_flip(u: XctrlStateUpdate, id: u8) -> bool {
    &&& u.interface_type is Button
    &&& u.value == 127
    &&& u.id == id
}

/// The three-byte body forwarded to the mixer: the first byte offset by
/// `0x08` per page (modulo 256) to address the page's mixer bank.
pub open spec fn spec_patched_body(u: XctrlStateUpdate, page: int) -> Seq<u8> {
    seq![
        (if u.raw_message@[0] + 8 * page > 255 {
            u.raw_message@[0] + 8 * page - 256
        } else {
            u.raw_message@[0] + 8 * page
        }) as u8,
        u.raw_message@[1],
        u.raw_message@[2],
    ]
}

/// Button `i` after a snapshot: as the flag masks dictate, except the
/// page's own bank button, which a snapshot always lights.
pub open spec fn spec_button_after(
    old_buttons: Seq<XctrlButton>,
    flags: Seq<u32>,
    bank_index: int,
    i: int,
) -> XctrlButton {
    if i == bank_index {
        XctrlButton { id: i as u8, state: 127u8 }
    } else {
        spec_button_flags_after(old_buttons, flags, i)
    }
}

/// One page after a snapshot: displays from the label block, channel
/// faders from the gains, meters from the level pairs, buttons from the
/// flag masks plus the lit bank button; the master fader keeps its value.
pub open spec fn spec_page_after_snapshot(
    pre: XctrlState,
    post: XctrlState,
    labels: Seq<u8>,
    ctx_color: u8,
    gains: Seq<i16>,
    meter_vals: Seq<int>,
    flags: Seq<u32>,
    bank_index: int,
) -> bool {
    &&& forall|i: int| 0 <= i < 8 ==> spec_display_set(
        (#[trigger] post.displays@[i]),
        labels,
        i,
        ctx_color,
    )
    &&& forall|i: int| 0 <= i < 8 ==> (#[trigger] post.faders@[i]).id == i
        && post.faders@[i].level == spec_fader_position(gains[i] as int)
    &&& post.faders@[8] == pre.faders@[8]
    &&& forall|i: int| 0 <= i < 8 ==> (#[trigger] post.meters@[i]).id == i
        && post.meters@[i].level == meter_vals[i]
    &&& forall|i: int| 0 <= i < 84 ==> #[trigger] post.buttons@[i] == spec_button_after(
        pre.buttons@,
        flags,
        bank_index,
        i,
    )
}

/// The whole engine after a connection event: the connection time moves
/// to `now_ms`, the fader batch goes dirty when more than five seconds
/// passed since the previous connection, nothing else changes.
pub open spec fn spec_connect_step(pre: SyncEngine, post: SyncEngine, now_ms: u64) -> bool {
    &&& post.faders_updated == (pre.faders_updated || now_ms - pre.connection_time_ms > 5000)
    &&& post.connection_time_ms == now_ms
    &&& post.pages == pre.pages
    &&& post.active_page == pre.active_page
    &&& post.last_update_send_ms == pre.last_update_send_ms
    &&& post.frame_id == pre.frame_id
}

/// The whole engine after a page-flip press (value 127 on button 47 for
/// the next page, button 46 for the previous): the selector moves, the
/// fader batch goes dirty, and nothing is forwarded — the press is
/// consumed by the gateway, so the frame id stands still.
pub open spec fn spec_page_flip_step(pre: SyncEngine, post: SyncEngine, u: XctrlStateUpdate) -> bool {
    &&& post.active_page == (if spec_is_page_flip(u, 47) {
        1int
    } else {
        0int
    })
    &&& post.faders_updated == true
    &&& post.frame_id == pre.frame_id
    &&& post.pages == pre.pages
    &&& post.connection_time_ms == pre.connection_time_ms
    &&& post.last_update_send_ms == pre.last_update_send_ms
}

/// The whole engine after any other surface control event, with `out`
/// the hex control envelope handed to the outbound mixer queue: the
/// frame id advances, and the event's body goes out patched for the
/// active page's mixer bank; nothing else changes.
pub open spec fn spec_forward_step(
    pre: SyncEngine,
    post: SyncEngine,
    u: XctrlStateUpdate,
    out: Seq<char>,
) -> bool {
    &&& post.active_page == pre.active_page
    &&& post.faders_updated == pre.faders_updated
    &&& post.frame_id == spec_next_frame_id(pre.frame_id)
    &&& post.pages == pre.pages
    &&& post.connection_time_ms == pre.connection_time_ms
    &&& post.last_update_send_ms == pre.last_update_send_ms
    &&& out == hex_str_of(spec_midi_packet_bytes(
        spec_patched_body(u, pre.active_page as int),
        post.frame_id,
    ))
}

/// The whole engine after a mixer snapshot: both pages refreshed from the
/// packet — inputs on page 0 in green, buses on page 1 in blue — and the
/// fader batch marked dirty when any channel fader moved.
pub open spec fn spec_snapshot_step(pre: SyncEngine, post: SyncEngine, pkt: RTPacket) -> bool {
    &&& spec_page_after_snapshot(
        pre.pages@[0],
        post.pages@[0],
        pkt.strip_labels_raw@,
        0x02,
        pkt.strip_gain_layer_1_raw@,
        Seq::new(8, |i: int| pkt.spec_input_meter(i)),
        pkt.strip_state@,
        46,
    )
    &&& spec_page_after_snapshot(
        pre.pages@[1],
        post.pages@[1],
        pkt.bus_labels_raw@,
        0x04,
        pkt.bus_gain_raw@,
        Seq::new(8, |i: int| pkt.spec_output_meter(i)),
        pkt.bus_state@,
        47,
    )
    &&& post.faders_updated == (pre.faders_updated || spec_faders_changed(
        pre.pages@[0],
        pkt.strip_gain_layer_1_raw@,
    ) || spec_faders_changed(pre.pages@[1], pkt.bus_gain_raw@))
    &&& post.active_page == pre.active_page
    &&& post.connection_time_ms == pre.connection_time_ms
    &&& post.last_update_send_ms == pre.last_update_send_ms
    &&& post.frame_id == pre.frame_id
}

/// One flush: the three hex batches of the active page.
pub struct FlushBatches {
    /// All eight display frames, concatenated.
    pub displays: String,
    /// All eight meter frames, with the nine fader frames appended when
    /// the fader batch was dirty.
    pub controls: String,
    /// All 84 button frames, concatenated.
    pub buttons: String,
}

/// The state synchronization engine: two mirrored surface pages, the
/// active-page selector, the fader dirty flag, the debounce and flush
/// clocks, and the outbound frame id.
pub struct SyncEngine {
    pub pages: [XctrlState; 2],
    pub active_page: usize,
    pub faders_updated: bool,
    pub connection_time_ms: u64,
    pub last_update_send_ms: u64,
    pub frame_id: u32,
}

impl SyncEngine {
    /// The selector points at one of the two pages and both pages keep
    /// their elements keyed by position.
    pub open spec fn wf(self) -> bool {
        &&& self.active_page < 2
        &&& self.pages@[0].wf()
        &&& self.pages@[1].wf()
    }

    /// A fresh engine at time `now_ms`: both pages at rest, page 0
    /// active, faders clean, both clocks at `now_ms`, frame id zero.
    pub fn new(now_ms: u64) -> (r: Self)
        ensures
            r.wf(),
            r.pages@[0].spec_initial(),
            r.pages@[1].spec_initial(),
            r.active_page == 0,
            r.faders_updated == false,
            r.connection_time_ms == now_ms,
            r.last_update_send_ms == now_ms,
            r.frame_id == 0,
    {
        let page = XctrlState::new();
        let r = SyncEngine {
            pages: [page, page],
            active_page: 0,
            faders_updated: false,
            connection_time_ms: now_ms,
            last_update_send_ms: now_ms,
            frame_id: 0,
        };
        assert(r.pages@ =~= seq![page, page]);
        r
    }

    /// Refreshes both pages from one mixer snapshot.
    pub fn apply_snapshot(&mut self, pkt: &RTPacket)
        requires
            old(self).wf(),
        ensures
            final(self).wf(),
            spec_snapshot_step(*old(self), *final(self), *pkt),
    {
        let mut page0 = self.pages[0];
        let mut page1 = self.pages[1];
        let ghost pre0 = page0;
        let ghost pre1 = page1;

        update_displays(&mut page0, &pkt.strip_labels_raw, 0x02);
        update_displays(&mut page1, &pkt.bus_labels_raw, 0x04);

        let gains0 = pkt.input_gains();
        let changed0 = update_faders(&mut page0, &gains0);
        let gains1 = pkt.output_gains();
        let changed1 = update_faders(&mut page1, &gains1);

        update_buttons(&mut page0, &pkt.strip_state);
        update_buttons(&mut page1, &pkt.bus_state);

        let meters0 = pkt.input_meters();
        proof {
            assert forall|i: int| 0 <= i < 8 implies 0 <= #[trigger] meters0@[i] <= 13 by {
                assert(meters0@[i] == pkt.spec_input_meter(i));
                lemma_meter_value_bounds(
                    crate::vban::spec_input_level_a(pkt.input_levels_raw@, i),
                    crate::vban::spec_input_level_b(pkt.input_levels_raw@, i),
                );
            }
        }
        update_meters(&mut page0, &meters0);
        let meters1 = pkt.output_meters();
        proof {
            assert forall|i: int| 0 <= i < 8 implies 0 <= #[trigger] meters1@[i] <= 13 by {
                assert(meters1@[i] == pkt.spec_output_meter(i));
                lemma_meter_value_bounds(
                    crate::vban::spec_output_level_a(pkt.output_levels_raw@, i),
                    crate::vban::spec_output_level_b(pkt.output_levels_raw@, i),
                );
            }
        }
        update_meters(&mut page1, &meters1);

        page0.buttons[46] = XctrlButton { id: 46, state: 127 };
        page1.buttons[47] = XctrlButton { id: 47, state: 127 };

        if changed0 || changed1 {
            self.faders_updated = true;
        }
        self.pages = [page0, page1];
        proof {
            assert(self.pages@ =~= seq![page0, page1]);
            assert forall|m: int| 0 <= m < 84 implies #[trigger] page0.buttons@[m]
                == spec_button_after(pre0.buttons@, pkt.strip_state@, 46, m) by {}
            assert forall|m: int| 0 <= m < 84 implies #[trigger] page1.buttons@[m]
                == spec_button_after(pre1.buttons@, pkt.bus_state@, 47, m) by {}
        }
    }

    /// Consumes one typed event.
    ///
    /// A connection event only moves the debounce clock (and may mark the
    /// faders dirty); a mixer snapshot refreshes both pages; a page-flip
    /// press moves the selector and is consumed; any other surface
    /// control event returns the hex control envelope to enqueue toward
    /// the mixer.
    pub fn handle_update(&mut self, update: &StateUpdate, now_ms: u64) -> (out: Option<String>)
        requires
            old(self).wf(),
            update is XtouchConnect ==> now_ms >= old(self).connection_time_ms,
        ensures
            final(self).wf(),
            match *update {
                StateUpdate::XtouchConnect() => out is None && spec_connect_step(
                    *old(self),
                    *final(self),
                    now_ms,
                ),
                StateUpdate::Xctrl(u) => if spec_is_page_flip(u, 46) || spec_is_page_flip(u, 47) {
                    out is None && spec_page_flip_step(*old(self), *final(self), u)
                } else {
                    out matches Some(s) && spec_forward_step(*old(self), *final(self), u, s@)
                },
                StateUpdate::Vban(p) => out is None && spec_snapshot_step(
                    *old(self),
                    *final(self),
                    p,
                ),
            },
    {
        match update {
            StateUpdate::XtouchConnect() => {
                let elapsed: u64 = now_ms - self.connection_time_ms;
                if elapsed > 5000 {
                    self.faders_updated = true;
                }
                self.connection_time_ms = now_ms;
                None
            },
            StateUpdate::Xctrl(u) => {
                let is_flip = match u.interface_type {
                    XctrlInterface::Button => u.value == 127 && (u.id == 46 || u.id == 47),
                    _ => false,
                };
                if is_flip {
                    self.active_page = if u.id == 47 {
                        1
                    } else {
                        0
                    };
                    self.faders_updated = true;
                    None
                } else {
                    self.frame_id = if self.frame_id == 0xffffffff {
                        0
                    } else {
                        self.frame_id + 1
                    };
                    let bump: u8 = 8 * (self.active_page as u8);
                    let b0: u8 = u.raw_message[0].wrapping_add(bump);
                    let body: [u8; 3] = [b0, u.raw_message[1], u.raw_message[2]];
                    proof {
                        assert(body@ =~= spec_patched_body(*u, self.active_page as int));
                    }
                    Some(midi_frame(body, self.frame_id))
                }
            },
            StateUpdate::Vban(p) => {
                self.apply_snapshot(p);
                None
            },
        }
    }

    /// Emits the active page's three batches when at least 50 ms passed
    /// since the previous flush, and clears the fader dirty flag; does
    /// nothing sooner.
    pub fn maybe_flush(&mut self, now_ms: u64) -> (r: Option<FlushBatches>)
        requires
            old(self).wf(),
            now_ms >= old(self).last_update_send_ms,
        ensures
            final(self).wf(),
            match r {
                None => now_ms - old(self).last_update_send_ms < 50 && *final(self) == *old(
                    self,
                ),
                Some(b) => {
                    let page = old(self).pages@[old(self).active_page as int];
                    &&& now_ms - old(self).last_update_send_ms >= 50
                    &&& final(self).pages == old(self).pages
                    &&& final(self).active_page == old(self).active_page
                    &&& final(self).faders_updated == false
                    &&& final(self).connection_time_ms == old(self).connection_time_ms
                    &&& final(self).last_update_send_ms == now_ms
                    &&& final(self).frame_id == old(self).frame_id
                    &&& b.displays@ == hex_str_of(spec_displays_bytes(page.displays@, 8))
                    &&& b.controls@ == hex_str_of(
                        spec_controls_bytes(page, old(self).faders_updated),
                    )
                    &&& b.buttons@ == hex_str_of(spec_buttons_bytes(page.buttons@, 84))
                },
            },
    {
        let elapsed: u64 = now_ms - self.last_update_send_ms;
        if elapsed < 50 {
            return None;
        }
        let page: XctrlState = if self.active_page == 0 {
            self.pages[0]
        } else {
            self.pages[1]
        };
        assert(page == self.pages@[self.active_page as int]);
        assert(page.wf());

        let mut display_bytes: Vec<u8> = Vec::new();
        let mut i: usize = 0;
        while i < 8
            invariant
                i <= 8,
                page.wf(),
                display_bytes@ == spec_displays_bytes(page.displays@, i as int),
            decreases 8 - i,
        {
            let frame: [u8; 22] = page.displays[i].as_bytes();
            push_all(&mut display_bytes, frame.as_slice());
            i = i + 1;
        }

        let mut control_bytes: Vec<u8> = Vec::new();
        let mut i: usize = 0;
        while i < 8
            invariant
                i <= 8,
                page.wf(),
                control_bytes@ == spec_meters_bytes(page.meters@, i as int),
            decreases 8 - i,
        {
            let frame: [u8; 4] = page.meters[i].as_bytes();
            push_all(&mut control_bytes, frame.as_slice());
            i = i + 1;
        }
        if self.faders_updated {
            let mut i: usize = 0;
            while i < 9
                invariant
                    i <= 9,
                    page.wf(),
                    control_bytes@ == spec_meters_bytes(page.meters@, 8) + spec_faders_bytes(
                        page.faders@,
                        i as int,
                    ),
                decreases 9 - i,
            {
                let frame: [u8; 5] = page.faders[i].as_bytes();
                push_all(&mut control_bytes, frame.as_slice());
                i = i + 1;
            }
        }
        assert(control_bytes@ == spec_controls_bytes(page, self.faders_updated));

        let mut button_bytes: Vec<u8> = Vec::new();
        let mut i: usize = 0;
        while i < 84
            invariant
                i <= 84,
                button_bytes@ == spec_buttons_bytes(page.buttons@, i as int),
            decreases 84 - i,
        {
            let frame: [u8; 5] = page.buttons[i].as_bytes();
            push_all(&mut button_bytes, frame.as_slice());
            i = i + 1;
        }

        self.last_update_send_ms = now_ms;
        self.faders_updated = false;
        Some(FlushBatches {
            displays: hex_encode(display_bytes.as_slice()),
            controls: hex_encode(control_bytes.as_slice()),
            buttons: hex_encode(button_bytes.as_slice()),
        })
    }
}

fn push_all(out: &mut Vec<u8>, a: &[u8])
    ensures
        final(out)@ == old(out)@ + a@,
{
    let n: usize = a.len();
    let mut i: usize = 0;
    while i < n
        invariant
            i <= n,
            n == a@.len(),
            out@ == old(out)@ + a@.subrange(0, i as int),
        decreases n - i,
    {
        out.push(a[i]);
        assert(a@.subrange(0, i + 1) =~= a@.subrange(0, i as int) + seq![a@[i as int]]);
        i = i + 1;
    }
    assert(a@.subrange(0, n as int) =~= a@);
}

} // verus!
