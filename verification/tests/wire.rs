//! What goes over the wire comes back as what it was.

use aurisd::aap::codec::{
    decode, encode_control, encode_hijack_v2, encode_owns_connection,
    encode_set_adaptive_level, encode_set_conversational_awareness, encode_set_noise_control,
    encode_set_setting, listening_modes_from_mask, opack_body, opack_str, opack_uint,
    smart_routing_requests_yield, ControlState, DecodeError, Packet, OWNERSHIP_TO_FALSE,
};
use aurisd::aap::opcode::CTL_NOISE_CONTROL;
use aurisd::address::Address;
use aurisd::settings::SettingCommand;
use aurisd::state::NoiseControlMode;

const HOST: Address = Address([0xA4, 0x83, 0xE7, 0x00, 0x11, 0x22]);

fn control(packet: &[u8]) -> ControlState {
    match decode(packet) {
        Ok(Packet::Control(state)) => state,
        other => panic!("no control packet: {other:?}"),
    }
}

#[test]
fn control_writes_read_back() {
    for mode in [
        NoiseControlMode::Off,
        NoiseControlMode::Anc,
        NoiseControlMode::Transparency,
        NoiseControlMode::Adaptive,
    ] {
        assert_eq!(control(&encode_set_noise_control(mode)), ControlState::NoiseControl(mode));
        assert_eq!(NoiseControlMode::from_wire(mode.to_wire()), Some(mode));
    }
    assert_eq!(NoiseControlMode::from_wire(5), None);
    for on in [false, true] {
        assert_eq!(
            control(&encode_set_conversational_awareness(on)),
            ControlState::ConversationalAwareness(on)
        );
        assert_eq!(control(&encode_owns_connection(on)), ControlState::OwnsConnection(on));
    }
    assert_eq!(control(&encode_set_adaptive_level(33)), ControlState::AdaptiveLevel(33));
    assert_eq!(control(&encode_set_adaptive_level(255)), ControlState::AdaptiveLevel(100));
}

#[test]
fn a_cycle_comes_back_in_bit_order() {
    let asked = SettingCommand::ListeningModeCycle(vec![
        NoiseControlMode::Adaptive,
        NoiseControlMode::Off,
        NoiseControlMode::Anc,
    ]);
    let packet = encode_set_setting(&asked).unwrap();
    assert_eq!(
        control(&packet),
        ControlState::Setting(SettingCommand::ListeningModeCycle(vec![
            NoiseControlMode::Off,
            NoiseControlMode::Anc,
            NoiseControlMode::Adaptive,
        ]))
    );
    assert_eq!(listening_modes_from_mask(0), []);
    assert_eq!(
        listening_modes_from_mask(0xf4),
        [NoiseControlMode::Transparency]
    );
}

#[test]
fn only_a_packet_too_short_for_its_contents_fails() {
    let short: [&[u8]; 9] = [
        &[4, 0, 4, 0, 0x04],
        &[4, 0, 4, 0, 0x04, 0, 2, 1, 1, 1, 1, 1],
        &[4, 0, 4, 0, 0x06, 0, 1],
        &[4, 0, 4, 0, 0x09, 0, CTL_NOISE_CONTROL],
        &[4, 0, 4, 0, 0x0c, 0, 1, 2, 3, 4, 5, 6, 7],
        &[4, 0, 4, 0, 0x0e, 0, 1, 2, 3, 4, 5, 6],
        &[4, 0, 4, 0, 0x11, 0, 1, 2, 3, 4, 5, 6, 7],
        &[4, 0, 4, 0, 0x2e, 0, 1, 0],
        &[4, 0, 4, 0, 0x4b, 0],
    ];
    for packet in short {
        assert_eq!(decode(packet), Err(DecodeError::Truncated), "{packet:?}");
    }
    assert_eq!(DecodeError::Truncated.to_string(), "packet truncated");
    for strange in [&[9u8; 6][..], &[4, 0, 4, 0, 0xfe, 0xca, 1, 2]] {
        assert!(matches!(decode(strange), Ok(Packet::Unknown { .. })), "{strange:?}");
    }
}

#[test]
fn metadata_that_is_no_text_is_replaced() {
    let mut packet = vec![4, 0, 4, 0, 0x1d, 0, 0, 0, 0, 0, 0];
    packet.extend_from_slice(b"B\xffds\0A3056\0\0");
    let Ok(Packet::Metadata(md)) = decode(&packet) else {
        panic!("no metadata");
    };
    assert_eq!(md.name.as_deref(), Some("B\u{fffd}ds"));
    assert_eq!(md.model.as_deref(), Some("A3056"));
    assert_eq!((md.manufacturer, md.serial), (None, None));
}

#[test]
fn a_hijack_asks_for_a_yield_and_other_bodies_do_not() {
    let packet = encode_hijack_v2(HOST);
    assert!(smart_routing_requests_yield(&packet[14..]));
    assert!(!smart_routing_requests_yield(b"audioRoutingSetOwnershipToTrue"));
    assert!(smart_routing_requests_yield(OWNERSHIP_TO_FALSE.as_bytes()));
}

#[test]
fn compact_values_carry_their_length() {
    let mut out = opack_body(3);
    opack_str(&mut out, "é");
    opack_uint(&mut out, 1);
    opack_uint(&mut out, 100);
    opack_uint(&mut out, 300);
    assert_eq!(
        out,
        [0x01, 0xe3, 0x42, 0xc3, 0xa9, 0x09, 0x30, 100, 0x31, 0x2c, 0x01]
    );
}

#[test]
fn a_control_frame_is_eleven_bytes() {
    assert_eq!(
        encode_control(CTL_NOISE_CONTROL, 2),
        [4, 0, 4, 0, 9, 0, 0x0d, 2, 0, 0, 0]
    );
}
