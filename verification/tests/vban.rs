use vban_xctrl::processor::{process_vban_message, VbanOutcome};
use vban_xctrl::vban::{fader_position, heartbeat_frame, midi_frame, MidiPacket, RegisterRT,
    VBANProtocol, VoiceMeeterType};

fn rt_frame() -> Vec<u8> {
    let mut b = vec![0u8; 1412];
    b[0..4].copy_from_slice(&[0x56, 0x42, 0x41, 0x4e]);
    b[4] = 0x60;
    b[6] = 32;
    b[7] = 0;
    b[8..24].copy_from_slice(b"Voicemeeter-RTP\0");
    b
}

#[test]
fn heartbeat_frame_is_the_registration_packet() {
    let expected = format!(
        "5642414e60002032{}01000000{}",
        "582d546f756368206d65746572730000",
        "01".repeat(128)
    );
    assert_eq!(heartbeat_frame(), expected);
    let packed = RegisterRT::new().pack();
    assert_eq!(packed.len(), 156);
    assert_eq!(hex::encode(&packed), expected);
}

#[test]
fn midi_frame_wraps_the_body() {
    let expected = "5642414e200000104d49444931000000000000000000000005000000902e7f";
    assert_eq!(midi_frame([0x90, 0x2e, 0x7f], 5), expected);
    let packed = MidiPacket::new([0x90, 0x2e, 0x7f], 5).pack();
    assert_eq!(packed.len(), 31);
    assert_eq!(hex::encode(&packed), expected);
}

#[test]
fn registration_ack_is_recognized() {
    let mut b = vec![0u8; 28];
    b[0..4].copy_from_slice(&[0x56, 0x42, 0x41, 0x4e]);
    b[4] = 0x60;
    b[6] = 32;
    b[7] = 1;
    let r = process_vban_message(&hex::encode(&b));
    assert!(matches!(r, VbanOutcome::Registered));
}

#[test]
fn snapshot_fields_decode() {
    let mut b = rt_frame();
    b[28] = 2;
    b[30] = 0x00;
    b[31] = 0x04;
    b[32..36].copy_from_slice(&[1, 2, 3, 4]);
    b[244] = 0x05;
    b[308] = 0x90;
    b[309] = 0xe8;
    b[452..455].copy_from_slice(b"Mic");
    match process_vban_message(&hex::encode(&b)) {
        VbanOutcome::Snapshot(p) => {
            assert_eq!(p.voicemeeter_type, 2);
            assert_eq!(p.buffer_size, 0x0400);
            assert_eq!(p.voicemeeter_version(), [4, 3, 2, 1]);
            assert_eq!(p.strip_state[0], 5);
            assert_eq!(p.input_gains()[0], -6000);
            assert_eq!(p.input_gains()[1], 0);
            let labels = p.strip_labels();
            assert_eq!(&labels[0][0..3], b"Mic");
            assert_eq!(labels[0][3], 0);
        },
        _ => panic!("expected a snapshot"),
    }
}

#[test]
fn wrong_magic_is_dropped() {
    let mut b = rt_frame();
    b[0] = 0x57;
    assert!(matches!(process_vban_message(&hex::encode(&b)), VbanOutcome::Dropped));
}

#[test]
fn non_service_protocol_is_dropped() {
    let mut b = rt_frame();
    b[4] = 0x20;
    assert!(matches!(process_vban_message(&hex::encode(&b)), VbanOutcome::Dropped));
}

#[test]
fn truncated_snapshot_is_dropped() {
    let mut b = rt_frame();
    b.truncate(1000);
    assert!(matches!(process_vban_message(&hex::encode(&b)), VbanOutcome::Dropped));
}

#[test]
fn unknown_stream_is_dropped() {
    let mut b = rt_frame();
    b[8..24].copy_from_slice(b"Some-Other-Strm\0");
    assert!(matches!(process_vban_message(&hex::encode(&b)), VbanOutcome::Dropped));
}

#[test]
fn non_hex_frame_is_dropped() {
    assert!(matches!(process_vban_message("not hex at all"), VbanOutcome::Dropped));
}

#[test]
fn fader_position_endpoints_and_midpoint() {
    assert_eq!(fader_position(-6000), 0);
    assert_eq!(fader_position(1200), 32767);
    assert_eq!(fader_position(0), 27305);
    assert_eq!(fader_position(-7000), 0);
    assert_eq!(fader_position(3000), 32767);
}

#[test]
fn fader_position_is_monotone_on_samples() {
    let samples = [-6000i16, -4500, -3000, -1500, -1, 0, 1, 600, 1199, 1200];
    let mut prev: u16 = 0;
    for (k, g) in samples.iter().enumerate() {
        let pos = fader_position(*g);
        if k > 0 {
            assert!(pos >= prev);
        }
        assert!(pos <= 32767);
        prev = pos;
    }
}

#[test]
fn meter_values_follow_the_formula() {
    let mut b = rt_frame();
    // channel 0: both raw levels at full scale -> normalized 0 -> 0 dB -> 13
    b[44..48].copy_from_slice(&[0xff, 0xff, 0xff, 0xff]);
    // channel 1: raw 50535 -> normalized 15000 each -> -150 dB, clamps to -100 -> 0
    b[48..52].copy_from_slice(&[0x67, 0xc5, 0x67, 0xc5]);
    // channel 2: raw 60535 -> normalized 5000 each -> -50 dB -> 6
    b[52..56].copy_from_slice(&[0x77, 0xec, 0x77, 0xec]);
    match process_vban_message(&hex::encode(&b)) {
        VbanOutcome::Snapshot(p) => {
            let meters = p.input_meters();
            assert_eq!(meters[0], 13);
            assert_eq!(meters[1], 0);
            assert_eq!(meters[2], 6);
            // channel 3 was left at raw 0: maximum attenuation, reset to 0 dB
            assert_eq!(meters[3], 13);
            for m in meters {
                assert!((0..=15).contains(&m));
            }
        },
        _ => panic!("expected a snapshot"),
    }
}

#[test]
fn protocol_and_mixer_type_codes() {
    assert_eq!(VBANProtocol::Audio.code(), 0x00);
    assert_eq!(VBANProtocol::Serial.code(), 0x20);
    assert_eq!(VBANProtocol::Txt.code(), 0x40);
    assert_eq!(VBANProtocol::Service.code(), 0x60);
    assert_eq!(VBANProtocol::User.code(), 0xe0);
    assert_eq!(VoiceMeeterType::Standard.code(), 1);
    assert_eq!(VoiceMeeterType::Banana.code(), 2);
    assert_eq!(VoiceMeeterType::Potato.code(), 3);
}
