use vban_xctrl::processor::{process_surface_message, StateUpdate};
use vban_xctrl::xctrl::{
    XctrlButton, XctrlDisplay, XctrlDisplayColor, XctrlFader, XctrlInterface, XctrlMeter,
    XctrlState,
};

#[test]
fn meter_frame_bytes() {
    let m = XctrlMeter { id: 2, level: 13 };
    assert_eq!(m.as_bytes(), [0xf0, 0xd0, 0x26, 0xf7]);
    assert_eq!(m.as_str(), "f0d026f7");
}

#[test]
fn fader_frame_is_little_endian() {
    let f = XctrlFader { id: 1, level: 0x1234 };
    assert_eq!(f.as_bytes(), [0xf0, 0xe1, 0x34, 0x12, 0xf7]);
    assert_eq!(f.as_str(), "f0e13412f7");
}

#[test]
fn button_frame_bytes() {
    let b = XctrlButton { id: 0x2e, state: 127 };
    assert_eq!(b.as_bytes(), [0xf0, 0x90, 0x2e, 0x7f, 0xf7]);
    assert_eq!(b.as_str(), "f0902e7ff7");
}

#[test]
fn display_frame_layout() {
    let top = [0x41u8, 0x42, 0x43, 0x44, 0x45, 0x46, 0x47];
    let bottom = [0u8; 7];
    let d = XctrlDisplay::new(1, XctrlDisplayColor::Green, &top, &bottom);
    let bytes = d.as_bytes();
    assert_eq!(bytes[0], 0xf0);
    assert_eq!(&bytes[1..5], &[0x00, 0x00, 0x66, 0x58]);
    assert_eq!(bytes[5], 0x21);
    assert_eq!(bytes[6], 0x02);
    assert_eq!(&bytes[7..14], &top);
    assert_eq!(&bytes[14..21], &bottom);
    assert_eq!(bytes[21], 0xf7);
    assert_eq!(d.as_str(), "f00000665821024142434445464700000000000000f7");
}

#[test]
fn display_new_takes_first_seven_bytes() {
    let text = [1u8, 2, 3, 4, 5, 6, 7, 8, 9, 10];
    let d = XctrlDisplay::new(0, XctrlDisplayColor::Blue, &text, &text);
    assert_eq!(d.top_text, [1, 2, 3, 4, 5, 6, 7]);
    assert_eq!(d.bottom_text, [1, 2, 3, 4, 5, 6, 7]);
    assert_eq!(d.color, 0x04);
}

#[test]
fn interface_from_nibble() {
    assert!(matches!(XctrlInterface::from(0xb), XctrlInterface::Encoder));
    assert!(matches!(XctrlInterface::from(0x9), XctrlInterface::Button));
    assert!(matches!(XctrlInterface::from(0xe), XctrlInterface::Fader));
    assert!(matches!(XctrlInterface::from(0x0), XctrlInterface::Unknown));
    assert!(matches!(XctrlInterface::from(0xf), XctrlInterface::Unknown));
}

#[test]
fn initial_state_shape() {
    let s = XctrlState::new();
    for i in 0..8 {
        assert_eq!(s.displays[i].id, i as u8);
        assert_eq!(s.displays[i].color, 0x07);
        assert_eq!(s.displays[i].top_text, [0u8; 7]);
        assert_eq!(s.meters[i].id, i as u8);
        assert_eq!(s.meters[i].level, 0);
    }
    for i in 0..9 {
        assert_eq!(s.faders[i].id, i as u8);
        assert_eq!(s.faders[i].level, 0);
    }
    for i in 0..84 {
        assert_eq!(s.buttons[i].id, i as u8);
        assert_eq!(s.buttons[i].state, 0);
    }
}

#[test]
fn handshake_request_gets_identity_response() {
    let r = process_surface_message("f0002032585400f7");
    assert_eq!(r.reply.as_deref(), Some("f00000661400f7"));
    assert!(matches!(r.event, Some(StateUpdate::XtouchConnect())));
}

#[test]
fn serial_broadcast_is_ignored() {
    let r = process_surface_message("f000006658013031353634303833393344f7");
    assert!(r.reply.is_none());
    assert!(r.event.is_none());
}

#[test]
fn fader_message_decodes_id_and_value() {
    let r = process_surface_message("e31020");
    assert!(r.reply.is_none());
    match r.event {
        Some(StateUpdate::Xctrl(u)) => {
            assert!(matches!(u.interface_type, XctrlInterface::Fader));
            assert_eq!(u.id, 3);
            assert_eq!(u.value, 0x2010);
            assert_eq!(u.raw_message, [0xe3, 0x10, 0x20]);
        },
        _ => panic!("expected a fader control event"),
    }
}

#[test]
fn button_message_decodes_id_and_value() {
    let r = process_surface_message("903f7f");
    match r.event {
        Some(StateUpdate::Xctrl(u)) => {
            assert!(matches!(u.interface_type, XctrlInterface::Button));
            assert_eq!(u.id, 0x3f);
            assert_eq!(u.value, 127);
            assert_eq!(u.raw_message, [0x90, 0x3f, 0x7f]);
        },
        _ => panic!("expected a button control event"),
    }
}

#[test]
fn unknown_message_keeps_raw_body() {
    let r = process_surface_message("7f0102");
    match r.event {
        Some(StateUpdate::Xctrl(u)) => {
            assert!(matches!(u.interface_type, XctrlInterface::Unknown));
            assert_eq!(u.id, 0);
            assert_eq!(u.value, 0);
            assert_eq!(u.raw_message, [0x7f, 0x01, 0x02]);
        },
        _ => panic!("expected an unknown control event"),
    }
}

#[test]
fn non_hex_message_is_dropped() {
    let r = process_surface_message("zz12");
    assert!(r.reply.is_none());
    assert!(r.event.is_none());
}

#[test]
fn odd_length_message_is_dropped() {
    let r = process_surface_message("f00");
    assert!(r.reply.is_none());
    assert!(r.event.is_none());
}

#[test]
fn short_message_is_dropped() {
    let r = process_surface_message("f0f7");
    assert!(r.reply.is_none());
    assert!(r.event.is_none());
}
