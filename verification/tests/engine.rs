use vban_xctrl::engine::{SyncEngine, VbanStripFlags};
use vban_xctrl::processor::{process_surface_message, process_vban_message, StateUpdate,
    VbanOutcome};
use vban_xctrl::xctrl::{XctrlButtonType, XctrlInterface, XctrlStateUpdate};

fn rt_frame() -> Vec<u8> {
    let mut b = vec![0u8; 1412];
    b[0..4].copy_from_slice(&[0x56, 0x42, 0x41, 0x4e]);
    b[4] = 0x60;
    b[6] = 32;
    b[7] = 0;
    b[8..24].copy_from_slice(b"Voicemeeter-RTP\0");
    b
}

fn button_press(id: u8) -> StateUpdate {
    StateUpdate::Xctrl(XctrlStateUpdate {
        interface_type: XctrlInterface::Button,
        id,
        value: 127,
        raw_message: [0x90, id, 0x7f],
    })
}

#[test]
fn next_page_press_flips_to_page_one() {
    let mut e = SyncEngine::new(0);
    assert_eq!(e.active_page, 0);
    let out = e.handle_update(&button_press(47), 0);
    // the flip press is consumed by the gateway, not forwarded
    assert!(out.is_none());
    assert_eq!(e.frame_id, 0);
    assert_eq!(e.active_page, 1);
    assert!(e.faders_updated);
}

#[test]
fn prev_page_press_flips_back_to_page_zero() {
    let mut e = SyncEngine::new(0);
    assert!(e.handle_update(&button_press(47), 0).is_none());
    assert_eq!(e.active_page, 1);
    assert!(e.handle_update(&button_press(46), 0).is_none());
    assert_eq!(e.active_page, 0);
    assert!(e.faders_updated);
    assert_eq!(e.frame_id, 0);
}

#[test]
fn release_does_not_flip_the_page() {
    let mut e = SyncEngine::new(0);
    let release = StateUpdate::Xctrl(XctrlStateUpdate {
        interface_type: XctrlInterface::Button,
        id: 47,
        value: 0,
        raw_message: [0x90, 47, 0x00],
    });
    let out = e.handle_update(&release, 0);
    // a release is not a flip: it is forwarded like any other event
    assert!(out.is_some());
    assert_eq!(e.active_page, 0);
    assert!(!e.faders_updated);
}

#[test]
fn other_button_does_not_flip_the_page() {
    let mut e = SyncEngine::new(0);
    let out = e.handle_update(&button_press(3), 0);
    assert!(out.is_some());
    assert_eq!(e.active_page, 0);
    assert!(!e.faders_updated);
}

#[test]
fn surface_event_is_wrapped_for_the_mixer() {
    let mut e = SyncEngine::new(0);
    let fader = StateUpdate::Xctrl(XctrlStateUpdate {
        interface_type: XctrlInterface::Fader,
        id: 0,
        value: 0x2010,
        raw_message: [0xe0, 0x10, 0x20],
    });
    let out = e.handle_update(&fader, 0).expect("a control envelope");
    assert_eq!(e.frame_id, 1);
    assert_eq!(
        out,
        "5642414e200000104d49444931000000000000000000000001000000e01020"
    );
}

#[test]
fn surface_event_on_page_one_selects_the_second_bank() {
    let mut e = SyncEngine::new(0);
    e.handle_update(&button_press(47), 0);
    let fader = StateUpdate::Xctrl(XctrlStateUpdate {
        interface_type: XctrlInterface::Fader,
        id: 0,
        value: 0,
        raw_message: [0xe0, 0x00, 0x00],
    });
    let out = e.handle_update(&fader, 0).expect("a control envelope");
    // the flip itself was not forwarded, so this is envelope number one
    assert_eq!(e.frame_id, 1);
    // body byte 0 is offset by 0x08 for page 1: 0xe0 -> 0xe8
    assert_eq!(&out[56..], "e80000");
}

#[test]
fn reconnect_after_two_seconds_stays_clean() {
    let mut e = SyncEngine::new(0);
    e.handle_update(&StateUpdate::XtouchConnect(), 1_000);
    assert!(!e.faders_updated);
    e.handle_update(&StateUpdate::XtouchConnect(), 3_000);
    assert!(!e.faders_updated);
}

#[test]
fn reconnect_after_six_seconds_marks_faders_dirty() {
    let mut e = SyncEngine::new(0);
    e.handle_update(&StateUpdate::XtouchConnect(), 1_000);
    assert!(!e.faders_updated);
    e.handle_update(&StateUpdate::XtouchConnect(), 7_000);
    assert!(e.faders_updated);
}

#[test]
fn snapshot_updates_both_pages() {
    let mut b = rt_frame();
    b[452..455].copy_from_slice(b"Mic");
    b[244] = 0x07;
    let packet = match process_vban_message(&hex::encode(&b)) {
        VbanOutcome::Snapshot(p) => p,
        _ => panic!("expected a snapshot"),
    };
    let mut e = SyncEngine::new(0);
    e.handle_update(&StateUpdate::Vban(packet), 0);
    // page 0, strip 0: label present -> green display, all flag buttons lit
    assert_eq!(e.pages[0].displays[0].color, 0x02);
    assert_eq!(&e.pages[0].displays[0].top_text[0..3], b"Mic");
    assert_eq!(e.pages[0].buttons[0x10].state, 127);
    assert_eq!(e.pages[0].buttons[0x08].state, 127);
    assert_eq!(e.pages[0].buttons[0x00].state, 127);
    // strip 1 has a blank label and no flags
    assert_eq!(e.pages[0].displays[1].color, 0x00);
    assert_eq!(e.pages[0].buttons[0x11].state, 0);
    // page 1 buses are blank: displays off, flags clear, blue otherwise
    assert_eq!(e.pages[1].displays[0].color, 0x00);
    assert_eq!(e.pages[1].buttons[0x10].state, 0);
    // each page lights its own bank button
    assert_eq!(e.pages[0].buttons[46].state, 127);
    assert_eq!(e.pages[1].buttons[47].state, 127);
    // gains of zero put every channel fader at the zero-dB position
    assert_eq!(e.pages[0].faders[0].level, 27305);
    assert_eq!(e.pages[0].faders[8].level, 0);
    assert!(e.faders_updated);
}

#[test]
fn snapshot_with_blue_labels_on_page_one() {
    let mut b = rt_frame();
    b[932..935].copy_from_slice(b"Out");
    let packet = match process_vban_message(&hex::encode(&b)) {
        VbanOutcome::Snapshot(p) => p,
        _ => panic!("expected a snapshot"),
    };
    let mut e = SyncEngine::new(0);
    e.handle_update(&StateUpdate::Vban(packet), 0);
    assert_eq!(e.pages[1].displays[0].color, 0x04);
    assert_eq!(&e.pages[1].displays[0].top_text[0..3], b"Out");
}

#[test]
fn flush_respects_the_rate_limit() {
    let mut e = SyncEngine::new(0);
    assert!(e.maybe_flush(49).is_none());
    assert!(e.maybe_flush(50).is_some());
    // the clock moved to 50; 99 is too soon again
    assert!(e.maybe_flush(99).is_none());
    assert!(e.maybe_flush(100).is_some());
}

#[test]
fn flush_emits_fader_zero_frame_for_lowest_gain() {
    let mut b = rt_frame();
    // strip 0 gain -6000 (raw, hundredths of dB) -> fader position 0
    b[308] = 0x90;
    b[309] = 0xe8;
    let packet = match process_vban_message(&hex::encode(&b)) {
        VbanOutcome::Snapshot(p) => p,
        _ => panic!("expected a snapshot"),
    };
    let mut e = SyncEngine::new(0);
    e.handle_update(&StateUpdate::Vban(packet), 0);
    assert!(e.faders_updated);
    let batches = e.maybe_flush(100).expect("a flush");
    // controls: eight 4-byte meter frames, then nine 5-byte fader frames
    assert_eq!(batches.controls.len(), 8 * 8 + 9 * 10);
    assert_eq!(&batches.controls[64..74], "f0e00000f7");
    assert!(!e.faders_updated);
}

#[test]
fn flush_skips_faders_when_clean() {
    let mut e = SyncEngine::new(0);
    let batches = e.maybe_flush(100).expect("a flush");
    assert_eq!(batches.displays.len(), 8 * 44);
    assert_eq!(batches.controls.len(), 8 * 8);
    assert_eq!(batches.buttons.len(), 84 * 10);
}

#[test]
fn handshake_to_response_end_to_end() {
    let reaction = process_surface_message("f0002032585400f7");
    assert_eq!(reaction.reply.as_deref(), Some("f00000661400f7"));
    let event = reaction.event.expect("a connection event");
    let mut e = SyncEngine::new(0);
    let out = e.handle_update(&event, 10_000);
    assert!(out.is_none());
    assert!(e.faders_updated);
}

#[test]
fn flag_masks_and_button_bases() {
    assert_eq!(VbanStripFlags::Mute.mask(), 0b001);
    assert_eq!(VbanStripFlags::Solo.mask(), 0b010);
    assert_eq!(VbanStripFlags::Mono.mask(), 0b100);
    assert_eq!(XctrlButtonType::Rec.base_id(), 0x00);
    assert_eq!(XctrlButtonType::Mute.base_id(), 0x10);
    assert_eq!(XctrlButtonType::FaderBank.base_id(), 0x2e);
    assert_eq!(XctrlButtonType::Enter.base_id(), 0x53);
}
