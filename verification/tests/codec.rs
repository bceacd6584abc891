use aurisd::aap::codec::{
    decode, encode_handshake, encode_hijack_v2, encode_media_info, encode_media_info_new_device,
    encode_new_tipi, encode_owns_connection, encode_rename, encode_request_notifications,
    encode_request_notifications_alt, encode_set_adaptive_level,
    encode_set_conversational_awareness, encode_set_features, encode_set_noise_control,
    encode_set_setting, opack_str, smart_routing_requests_yield, AudioSourceState,
    BatteryComponent, BatteryEntry, ConnectedDevice, ControlState, DecodeError, FeaturesVariant,
    Metadata, Packet, DEFAULT_BT_NAME,
};
use aurisd::address::Address;
use aurisd::settings::{CallControls, HoldDuration, MicrophoneMode, PressSpeed, SettingCommand};
use aurisd::state::{EarState, NoiseControlMode};

fn battery(pkt: Packet) -> Vec<BatteryEntry> {
    match pkt {
        Packet::Battery(v) => v,
        other => panic!("expected battery, got {other:?}"),
    }
}

#[test]
fn battery_three_components() {
    let bytes = [
        0x04, 0x00, 0x04, 0x00, 0x04, 0x00, 0x03, 0x04, 0x01, 0x57, 0x02, 0x01, 0x02, 0x01,
        0x55, 0x02, 0x01, 0x08, 0x01, 0x3e, 0x01, 0x01,
    ];
    let entries = battery(decode(&bytes).unwrap());
    assert_eq!(entries.len(), 3);
    assert_eq!(
        entries[0],
        BatteryEntry {
            component: BatteryComponent::Left,
            level: Some(87),
            charging: false,
            present: true
        }
    );
    assert_eq!(
        entries[1],
        BatteryEntry {
            component: BatteryComponent::Right,
            level: Some(85),
            charging: false,
            present: true
        }
    );
    assert_eq!(
        entries[2],
        BatteryEntry {
            component: BatteryComponent::Case,
            level: Some(62),
            charging: true,
            present: true
        }
    );
}

#[test]
fn battery_disconnected_case() {
    let bytes = [
        0x04, 0x00, 0x04, 0x00, 0x04, 0x00, 0x02, 0x04, 0x01, 0x57, 0x02, 0x01, 0x08, 0x01,
        0x00, 0x04, 0x01,
    ];
    let entries = battery(decode(&bytes).unwrap());
    assert_eq!(entries.len(), 2);
    assert_eq!(entries[0].component, BatteryComponent::Left);
    assert_eq!(entries[0].level, Some(87));
    assert_eq!(entries[1].component, BatteryComponent::Case);
    assert_eq!(entries[1].level, None);
    assert!(!entries[1].present);
    assert!(!entries[1].charging);
}

#[test]
fn battery_truncated() {
    // Declares three components, carries one.
    let bytes = [
        0x04, 0x00, 0x04, 0x00, 0x04, 0x00, 0x03, 0x04, 0x01, 0x57, 0x02, 0x01,
    ];
    assert_eq!(decode(&bytes), Err(DecodeError::Truncated));
}

#[test]
fn ear_in_out() {
    let bytes = [0x04, 0x00, 0x04, 0x00, 0x06, 0x00, 0x00, 0x01];
    assert_eq!(
        decode(&bytes).unwrap(),
        Packet::EarDetection {
            primary: EarState::In,
            secondary: EarState::Out
        }
    );
}

#[test]
fn ear_both_in_case() {
    let bytes = [0x04, 0x00, 0x04, 0x00, 0x06, 0x00, 0x02, 0x02];
    assert_eq!(
        decode(&bytes).unwrap(),
        Packet::EarDetection {
            primary: EarState::Case,
            secondary: EarState::Case
        }
    );
}

#[test]
fn noise_control_decode() {
    let bytes = [
        0x04, 0x00, 0x04, 0x00, 0x09, 0x00, 0x0d, 0x02, 0x00, 0x00, 0x00,
    ];
    assert_eq!(
        decode(&bytes).unwrap(),
        Packet::Control(ControlState::NoiseControl(NoiseControlMode::Anc))
    );
}

#[test]
fn noise_control_encode_roundtrip() {
    for (mode, byte) in [
        (NoiseControlMode::Off, 0x01u8),
        (NoiseControlMode::Anc, 0x02),
        (NoiseControlMode::Transparency, 0x03),
        (NoiseControlMode::Adaptive, 0x04),
    ] {
        let pkt = encode_set_noise_control(mode);
        assert_eq!(
            pkt,
            vec![0x04, 0x00, 0x04, 0x00, 0x09, 0x00, 0x0d, byte, 0x00, 0x00, 0x00]
        );
        assert_eq!(
            decode(&pkt).unwrap(),
            Packet::Control(ControlState::NoiseControl(mode))
        );
    }
}

#[test]
fn conv_awareness_encode() {
    assert_eq!(
        encode_set_conversational_awareness(true),
        vec![0x04, 0x00, 0x04, 0x00, 0x09, 0x00, 0x28, 0x01, 0x00, 0x00, 0x00]
    );
    assert_eq!(
        encode_set_conversational_awareness(false),
        vec![0x04, 0x00, 0x04, 0x00, 0x09, 0x00, 0x28, 0x02, 0x00, 0x00, 0x00]
    );
    assert_eq!(
        decode(&encode_set_conversational_awareness(true)).unwrap(),
        Packet::Control(ControlState::ConversationalAwareness(true))
    );
}

#[test]
fn adaptive_level_encode() {
    assert_eq!(
        encode_set_adaptive_level(50),
        vec![0x04, 0x00, 0x04, 0x00, 0x09, 0x00, 0x2e, 0x32, 0x00, 0x00, 0x00]
    );
    assert_eq!(encode_set_adaptive_level(0)[7], 0x00);
    assert_eq!(encode_set_adaptive_level(100)[7], 100);
    assert_eq!(encode_set_adaptive_level(255)[7], 100, "clamps to 100");
}

#[test]
fn metadata_decode() {
    // Header, then five bytes that are not text: the strings start at
    // frame offset 11.
    let mut bytes = vec![0x04, 0x00, 0x04, 0x00, 0x1d, 0x00];
    bytes.extend_from_slice(&[0x01, 0x00, 0x00, 0x00, 0x02]);
    bytes.extend_from_slice(b"AirPods\x00A3056\x00Apple Inc.\x00H4H200\x007B21\x00");
    let Packet::Metadata(md) = decode(&bytes).unwrap() else {
        panic!("expected metadata")
    };
    assert_eq!(md.name.as_deref(), Some("AirPods"));
    assert_eq!(md.model.as_deref(), Some("A3056"));
    assert_eq!(md.manufacturer.as_deref(), Some("Apple Inc."));
    assert_eq!(md.serial.as_deref(), Some("H4H200"));
    assert_eq!(md.firmware.as_deref(), Some("7B21"));
}

#[test]
fn metadata_tail_strings_are_ignored_not_fatal() {
    let mut bytes = vec![0x04, 0x00, 0x04, 0x00, 0x1d, 0x00];
    bytes.extend_from_slice(&[0x01, 0x00, 0x00, 0x00, 0x02]);
    bytes.extend_from_slice(
        b"AirPods\x00A3056\x00Apple Inc.\x00H4H200\x007B21\x007B21\x001.0\x00updater\x00LSER\x00RSER\x007B21\x00",
    );
    let Packet::Metadata(md) = decode(&bytes).unwrap() else {
        panic!("expected metadata")
    };
    assert_eq!(md.name.as_deref(), Some("AirPods"));
    assert_eq!(md.firmware.as_deref(), Some("7B21"));
}

#[test]
fn metadata_shorter_than_the_skip_is_empty_not_garbage() {
    let bytes = [0x04, 0x00, 0x04, 0x00, 0x1d, 0x00, 0x01, 0x00];
    assert_eq!(
        decode(&bytes).unwrap(),
        Packet::Metadata(Metadata::default())
    );
}

#[test]
fn conv_awareness_event_is_a_level_not_a_state() {
    let bytes = [0x04, 0x00, 0x04, 0x00, 0x4b, 0x00, 0x02, 0x00, 0x08];
    assert_eq!(
        decode(&bytes).unwrap(),
        Packet::ConversationalAwarenessLevel(0x08)
    );
}

#[test]
fn unknown_opcode_is_not_error() {
    let bytes = [0x04, 0x00, 0x04, 0x00, 0xff, 0x7f, 0x00];
    assert_eq!(
        decode(&bytes).unwrap(),
        Packet::Unknown {
            opcode: 0x7fff,
            payload: vec![0x00]
        }
    );
}

#[test]
fn short_packet_rejected() {
    assert_eq!(decode(&[0x04, 0x00, 0x04]), Err(DecodeError::Truncated));
    assert_eq!(decode(&[]), Err(DecodeError::Truncated));
}

#[test]
fn static_packets_match_contract() {
    assert_eq!(
        encode_handshake(),
        vec![
            0x00, 0x00, 0x04, 0x00, 0x01, 0x00, 0x02, 0x00, 0x00, 0x00, 0x00, 0x00, 0x00, 0x00,
            0x00, 0x00
        ]
    );
    assert_eq!(
        encode_set_features(FeaturesVariant::D7),
        vec![
            0x04, 0x00, 0x04, 0x00, 0x4d, 0x00, 0xd7, 0x00, 0x00, 0x00, 0x00, 0x00, 0x00, 0x00
        ]
    );
    assert_eq!(
        encode_set_features(FeaturesVariant::Alt),
        vec![
            0x04, 0x00, 0x04, 0x00, 0x4d, 0x00, 0x0e, 0x00, 0x00, 0x00, 0x00, 0x00, 0x00, 0x00
        ]
    );
    assert_eq!(
        encode_request_notifications(),
        vec![0x04, 0x00, 0x04, 0x00, 0x0f, 0x00, 0xff, 0xff, 0xff, 0xff, 0xff]
    );
    assert_eq!(
        encode_request_notifications_alt(),
        vec![0x04, 0x00, 0x04, 0x00, 0x0f, 0x00, 0xff, 0xff, 0xef, 0xff]
    );
}

#[test]
fn both_features_variants_are_fourteen_bytes() {
    for v in [FeaturesVariant::D7, FeaturesVariant::Alt] {
        let pkt = encode_set_features(v);
        assert_eq!(pkt.len(), 14, "{v:?} must be 14 bytes, not 13");
        // Header, opcode, selector, then seven zero bytes.
        assert_eq!(&pkt[..6], &[0x04, 0x00, 0x04, 0x00, 0x4d, 0x00]);
        assert_eq!(&pkt[7..], &[0u8; 7]);
    }
    assert_eq!(encode_set_features(FeaturesVariant::D7)[6], 0xd7);
    assert_eq!(encode_set_features(FeaturesVariant::Alt)[6], 0x0e);
}

#[test]
fn handshake_ack_recognised() {
    let bytes = [0x01, 0x00, 0x04, 0x00, 0x00, 0x00, 0x00, 0x00];
    assert_eq!(decode(&bytes).unwrap(), Packet::HandshakeAck);
    // Any frame on the ack prefix is an ack, whatever follows it.
    let other = [0x01, 0x00, 0x04, 0x00, 0x1d, 0x00, 0xff];
    assert_eq!(decode(&other).unwrap(), Packet::HandshakeAck);
    // The ordinary prefix is not one.
    let not_ack = [0x04, 0x00, 0x04, 0x00, 0x01, 0x00, 0x00];
    assert_ne!(decode(&not_ack).unwrap(), Packet::HandshakeAck);
}

#[test]
fn features_ack_is_distinct_from_unknown() {
    let bytes = [0x04, 0x00, 0x04, 0x00, 0x2b, 0x00, 0x00, 0x00, 0x00, 0x00];
    assert_eq!(decode(&bytes).unwrap(), Packet::FeaturesAck);
    // Payload-free is still an ack; a neighbouring opcode is not.
    assert_eq!(decode(&bytes[..6]).unwrap(), Packet::FeaturesAck);
    assert!(matches!(
        decode(&[0x04, 0x00, 0x04, 0x00, 0x2c, 0x00]).unwrap(),
        Packet::Unknown { opcode: 0x002c, .. }
    ));
}

#[test]
fn typed_setting_packets_match_the_wire_contract_and_round_trip() {
    let cases = [
        (
            SettingCommand::Microphone(MicrophoneMode::Auto),
            vec![0x04, 0x00, 0x04, 0x00, 0x09, 0x00, 0x01, 0x00, 0, 0, 0],
        ),
        (
            SettingCommand::Microphone(MicrophoneMode::Right),
            vec![0x04, 0x00, 0x04, 0x00, 0x09, 0x00, 0x01, 0x01, 0, 0, 0],
        ),
        (
            SettingCommand::Microphone(MicrophoneMode::Left),
            vec![0x04, 0x00, 0x04, 0x00, 0x09, 0x00, 0x01, 0x02, 0, 0, 0],
        ),
        (
            SettingCommand::PressSpeed(PressSpeed::Default),
            vec![0x04, 0x00, 0x04, 0x00, 0x09, 0x00, 0x17, 0x00, 0, 0, 0],
        ),
        (
            SettingCommand::PressSpeed(PressSpeed::Slower),
            vec![0x04, 0x00, 0x04, 0x00, 0x09, 0x00, 0x17, 0x01, 0, 0, 0],
        ),
        (
            SettingCommand::PressSpeed(PressSpeed::Slowest),
            vec![0x04, 0x00, 0x04, 0x00, 0x09, 0x00, 0x17, 0x02, 0, 0, 0],
        ),
        (
            SettingCommand::HoldDuration(HoldDuration::Default),
            vec![0x04, 0x00, 0x04, 0x00, 0x09, 0x00, 0x18, 0x00, 0, 0, 0],
        ),
        (
            SettingCommand::HoldDuration(HoldDuration::Shorter),
            vec![0x04, 0x00, 0x04, 0x00, 0x09, 0x00, 0x18, 0x01, 0, 0, 0],
        ),
        (
            SettingCommand::HoldDuration(HoldDuration::Shortest),
            vec![0x04, 0x00, 0x04, 0x00, 0x09, 0x00, 0x18, 0x02, 0, 0, 0],
        ),
        (
            SettingCommand::ListeningModeCycle(vec![
                NoiseControlMode::Off,
                NoiseControlMode::Anc,
                NoiseControlMode::Transparency,
                NoiseControlMode::Adaptive,
            ]),
            vec![0x04, 0x00, 0x04, 0x00, 0x09, 0x00, 0x1a, 0x0f, 0, 0, 0],
        ),
        (
            SettingCommand::CallControls(CallControls::MuteOnceHangupTwice),
            vec![0x04, 0x00, 0x04, 0x00, 0x09, 0x00, 0x24, 0x00, 0x03, 0, 0],
        ),
        (
            SettingCommand::CallControls(CallControls::HangupOnceMuteTwice),
            vec![0x04, 0x00, 0x04, 0x00, 0x09, 0x00, 0x24, 0x00, 0x02, 0, 0],
        ),
        (
            SettingCommand::PersonalizedVolume(true),
            vec![0x04, 0x00, 0x04, 0x00, 0x09, 0x00, 0x26, 0x01, 0, 0, 0],
        ),
        (
            SettingCommand::PersonalizedVolume(false),
            vec![0x04, 0x00, 0x04, 0x00, 0x09, 0x00, 0x26, 0x02, 0, 0, 0],
        ),
    ];

    for (setting, bytes) in cases {
        assert_eq!(encode_set_setting(&setting).unwrap(), bytes);
        assert_eq!(
            decode(&bytes).unwrap(),
            Packet::Control(ControlState::Setting(setting))
        );
    }
}

#[test]
fn malformed_setting_echoes_never_become_confirmed_settings() {
    let short_call = [0x04, 0x00, 0x04, 0x00, 0x09, 0x00, 0x24, 0x00, 0x03];
    assert_eq!(decode(&short_call), Err(DecodeError::Truncated));

    for bytes in [
        [0x04, 0x00, 0x04, 0x00, 0x09, 0x00, 0x24, 0x00, 0x03, 1, 0],
        [0x04, 0x00, 0x04, 0x00, 0x09, 0x00, 0x01, 0x00, 1, 0, 0],
        [0x04, 0x00, 0x04, 0x00, 0x09, 0x00, 0x1a, 0x10, 0, 0, 0],
        [0x04, 0x00, 0x04, 0x00, 0x09, 0x00, 0x26, 0x00, 0, 0, 0],
    ] {
        assert!(matches!(
            decode(&bytes).unwrap(),
            Packet::Control(ControlState::Other { .. })
        ));
    }

    let short_scalar = [0x04, 0x00, 0x04, 0x00, 0x09, 0x00, 0x17, 0x01];
    assert_eq!(decode(&short_scalar), Err(DecodeError::Truncated));
}

#[test]
fn rename_packet_uses_utf8_byte_length() {
    assert_eq!(
        encode_rename("Auré").unwrap(),
        vec![
            0x04, 0x00, 0x04, 0x00, 0x1a, 0x00, 0x01, 0x05, 0x00, b'A', b'u', b'r', 0xc3, 0xa9,
        ]
    );
    assert!(encode_rename("bad\nname").is_err());
    assert!(encode_rename(&"x".repeat(256)).is_err());
}

#[test]
fn single_mode_report_is_preserved_but_not_accepted_as_a_write() {
    let report = [4, 0, 4, 0, 9, 0, 0x1a, 2, 0, 0, 0];
    let setting = SettingCommand::ListeningModeCycle(vec![NoiseControlMode::Anc]);
    assert_eq!(
        decode(&report).unwrap(),
        Packet::Control(ControlState::Setting(setting.clone()))
    );
    assert!(encode_set_setting(&setting).is_err());
}

const HOST: &str = "5C:F3:70:0D:0E:0F";
const AIRPODS: &str = "BC:80:4E:01:02:03";

fn addr(s: &str) -> Address {
    Address::parse(s).unwrap()
}

fn hex(s: &str) -> Vec<u8> {
    let s: String = s.split_whitespace().collect();
    (0..s.len())
        .step_by(2)
        .map(|i| u8::from_str_radix(&s[i..i + 2], 16).unwrap())
        .collect()
}

/// A payload as AirPods send it (hex after the header), framed.
fn frame(opcode: u8, payload: &str) -> Vec<u8> {
    let mut v = vec![0x04, 0x00, 0x04, 0x00, opcode, 0x00];
    v.extend(hex(payload));
    v
}

fn cat(parts: &[&[u8]]) -> Vec<u8> {
    parts.concat()
}

#[test]
fn real_address_reports_decode_with_reversed_addresses() {
    assert_eq!(
        decode(&frame(0x0c, "03 02 01 4e 80 bc 00 02")).unwrap(),
        Packet::AddressReport {
            address: addr(AIRPODS),
            extra: [0x00, 0x02]
        }
    );
    assert_eq!(
        decode(&frame(0x0c, "0f 0e 0d 70 f3 5c 01 01")).unwrap(),
        Packet::AddressReport {
            address: addr(HOST),
            extra: [0x01, 0x01]
        }
    );
    assert_eq!(
        decode(&frame(0x0c, "0f 0e 0d 70 f3 5c 01")),
        Err(DecodeError::Truncated)
    );
}

#[test]
fn real_audio_source_reports_decode() {
    assert_eq!(
        decode(&frame(0x0e, "0f 0e 0d 70 f3 5c 00")).unwrap(),
        Packet::AudioSource {
            address: addr(HOST),
            state: AudioSourceState::Idle
        }
    );
    assert_eq!(
        decode(&frame(0x0e, "0f 0e 0d 70 f3 5c 02")).unwrap(),
        Packet::AudioSource {
            address: addr(HOST),
            state: AudioSourceState::Media
        }
    );
    assert!(matches!(
        decode(&frame(0x0e, "0f 0e 0d 70 f3 5c 01")).unwrap(),
        Packet::AudioSource {
            state: AudioSourceState::Call,
            ..
        }
    ));
    assert_eq!(
        decode(&frame(0x0e, "0f 0e 0d 70 f3 5c")),
        Err(DecodeError::Truncated)
    );
}

#[test]
fn real_connected_devices_reports_decode_in_wire_order() {
    for (payload, header) in [
        ("01 00 01 5c f3 70 0d 0e 0f 02 02", [0x01, 0x00]),
        ("01 02 01 5c f3 70 0d 0e 0f 02 02", [0x01, 0x02]),
    ] {
        assert_eq!(
            decode(&frame(0x2e, payload)).unwrap(),
            Packet::ConnectedDevices {
                header,
                devices: vec![ConnectedDevice {
                    address: addr(HOST),
                    info: [0x02, 0x02]
                }]
            }
        );
    }
}

#[test]
fn the_same_host_reads_identically_from_reversed_and_forward_layouts() {
    let Packet::AudioSource { address: a, .. } =
        decode(&frame(0x0e, "0f 0e 0d 70 f3 5c 02")).unwrap()
    else {
        panic!("not an audio source");
    };
    let Packet::ConnectedDevices { devices, .. } =
        decode(&frame(0x2e, "01 00 01 5c f3 70 0d 0e 0f 02 02")).unwrap()
    else {
        panic!("not a device list");
    };
    assert_eq!(a, devices[0].address);
    assert_eq!(a.to_string(), HOST);
}

#[test]
fn info_byte_0_reads_the_listed_host_link_state() {
    // Reports with the Mac FC:B2:14:0A:0B:0C first, this host second,
    // each lined up against the Mac's own connection log.
    for (payload, mac_up, host_up) in [
        // Shortly after the Mac logs Conn Disconnected.
        (
            "01 01 02 fc b2 14 0a 0b 0c 00 15 5c f3 70 0d 0e 0f 02 03",
            false,
            true,
        ),
        // The Mac connecting again.
        (
            "01 01 02 fc b2 14 0a 0b 0c 01 05 5c f3 70 0d 0e 0f 02 03",
            false,
            true,
        ),
        // Just before the Mac logs Conn Connected.
        (
            "01 00 02 fc b2 14 0a 0b 0c 02 17 5c f3 70 0d 0e 0f 01 01",
            true,
            false,
        ),
        // Both links up, the state right before a drop.
        (
            "01 02 02 fc b2 14 0a 0b 0c 02 15 5c f3 70 0d 0e 0f 02 03",
            true,
            true,
        ),
    ] {
        let Packet::ConnectedDevices { devices, .. } = decode(&frame(0x2e, payload)).unwrap()
        else {
            panic!("not a device list");
        };
        assert_eq!(devices[0].is_link_up(), mac_up, "{payload}");
        assert_eq!(devices[1].is_link_up(), host_up, "{payload}");
    }
}

#[test]
fn a_short_device_list_keeps_the_complete_entries() {
    let pkt = decode(&frame(0x2e, "01 00 02 5c f3 70 0d 0e 0f 02 02 aa bb")).unwrap();
    let Packet::ConnectedDevices { devices, .. } = pkt else {
        panic!("not a device list");
    };
    assert_eq!(devices.len(), 1);
    assert_eq!(decode(&frame(0x2e, "01 00")), Err(DecodeError::Truncated));
}

#[test]
fn ownership_control_matches_librepods_both_ways() {
    // docs/control_commands.md: 0x06 owns connection, 01 own, 00 not.
    let own = hex("04 00 04 00 09 00 06 01 00 00 00");
    let not = hex("04 00 04 00 09 00 06 00 00 00 00");
    assert_eq!(encode_owns_connection(true), own);
    assert_eq!(encode_owns_connection(false), not);
    assert_eq!(
        decode(&own).unwrap(),
        Packet::Control(ControlState::OwnsConnection(true))
    );
    assert_eq!(
        decode(&not).unwrap(),
        Packet::Control(ControlState::OwnsConnection(false))
    );
}

#[test]
fn hijack_matches_the_capture_in_librepods_history() {
    let target = addr("AA:BB:CC:DD:EE:FF");
    let captured = hex(
        "620001E54A6C6F63616C73636F7265306446726561736F6E4848696A61636B763251617564696F\
         526F7574696E6753636F7265312D015F617564696F526F7574696E675365744F776E6572736869\
         70546F46616C7365014B72656D6F746573636F7265A5",
    );
    let expected = cat(&[
        &[0x04, 0x00, 0x04, 0x00, 0x10, 0x00],
        &[0xFF, 0xEE, 0xDD, 0xCC, 0xBB, 0xAA],
        &captured,
    ]);
    assert_eq!(encode_hijack_v2(target), expected);
    assert_eq!(expected.len(), 6 + 106, "LibrePods allocates 106 bytes");
}

#[test]
fn new_tipi_matches_librepods_create_add_tipi_device_packet() {
    let target = addr("AA:BB:CC:DD:EE:FF");
    let local = addr(HOST);
    let expected = cat(&[
        &[0x04, 0x00, 0x04, 0x00, 0x10, 0x00],
        &[0xFF, 0xEE, 0xDD, 0xCC, 0xBB, 0xAA],
        &[0x52, 0x00],
        &[0x01, 0xE5],
        &[0x48],
        b"idleTime",
        &[0x08, 0x47],
        b"newTipi",
        &[0x01, 0x49],
        b"btAddress",
        &[0x51],
        HOST.as_bytes(),
        &[0x46],
        b"btName",
        &[0x47],
        b"Android",
        &[0x50],
        b"nearbyAudioScore",
        &[0x0E],
    ]);
    assert_eq!(encode_new_tipi(target, local, "Android"), expected);
    assert_eq!(expected.len(), 6 + 90);
}

#[test]
fn new_device_media_info_matches_librepods() {
    let target = addr("AA:BB:CC:DD:EE:FF");
    let expected = cat(&[
        &[0x04, 0x00, 0x04, 0x00, 0x10, 0x00],
        &[0xFF, 0xEE, 0xDD, 0xCC, 0xBB, 0xAA],
        &[0x6C, 0x00],
        &[0x01, 0xE5, 0x4A],
        b"playingApp",
        &[0x42],
        b"NA",
        &[0x52],
        b"hostStreamingState",
        &[0x42],
        b"NO",
        &[0x49],
        b"btAddress",
        &[0x51],
        HOST.as_bytes(),
        &[0x46],
        b"btName",
        &[0x47],
        b"Android",
        &[0x58],
        b"otherDevice",
        b"AudioCategory",
        &[0x30, 0x64],
    ]);
    assert_eq!(
        encode_media_info_new_device(target, addr(HOST), "Android"),
        expected
    );
    assert_eq!(expected.len(), 6 + 116);
}

/// LibrePods' createMediaInformationPacket, with its two OPACK slips
/// corrected: the `btName` key lacks its 0x46 tag and "YES" is tagged as a
/// two-byte string (0x42). It also zero-pads to a fixed buffer; auris sends
/// the exact body length instead.
#[test]
fn streaming_media_info_matches_librepods_with_opack_tags_corrected() {
    let target = addr("AA:BB:CC:DD:EE:FF");
    let body = cat(&[
        &[0x01, 0xE5, 0x4A],
        b"PlayingApp",
        &[0x56],
        b"com.google.ios.youtube",
        &[0x52],
        b"HostStreamingState",
        &[0x43],
        b"YES",
        &[0x49],
        b"btAddress",
        &[0x51],
        HOST.as_bytes(),
        &[0x46],
        b"btName",
        &[0x43],
        b"Mac",
        &[0x58],
        b"otherDevice",
        b"AudioCategory",
        &[0x31, 0x2D, 0x01],
    ]);
    let expected = cat(&[
        &[0x04, 0x00, 0x04, 0x00, 0x10, 0x00],
        &[0xFF, 0xEE, 0xDD, 0xCC, 0xBB, 0xAA],
        &(body.len() as u16).to_le_bytes(),
        &body,
    ]);
    assert_eq!(
        encode_media_info(
            target,
            addr(HOST),
            "com.google.ios.youtube",
            true,
            DEFAULT_BT_NAME
        ),
        expected
    );
    let stopped = encode_media_info(target, addr(HOST), "NA", false, "Mac");
    assert!(stopped.windows(3).any(|w| w == [0x42, b'N', b'O']));
}

#[test]
fn long_strings_are_cut_at_a_character_boundary() {
    let mut out = Vec::new();
    opack_str(&mut out, &"é".repeat(20));
    assert_eq!(out[0], 0x40 + 32);
    assert_eq!(out.len(), 33);
    assert!(std::str::from_utf8(&out[1..]).is_ok());
}

#[test]
fn relayed_ownership_request_decodes_with_its_sender() {
    let mut relayed = encode_hijack_v2(addr(HOST));
    relayed[4] = 0x11;
    // The relay carries the sender where the request carried the target.
    relayed[6..12].copy_from_slice(&[0x01, 0x02, 0x03, 0x04, 0x05, 0x06]);
    let Packet::SmartRouting { sender, body } = decode(&relayed).unwrap() else {
        panic!("not smart routing");
    };
    assert_eq!(sender, addr("06:05:04:03:02:01"));
    assert!(smart_routing_requests_yield(&body));
    assert!(!smart_routing_requests_yield(
        b"\x01\xe1\x46reason\x48Hijackv2"
    ));
    assert_eq!(decode(&relayed[..13]), Err(DecodeError::Truncated));
}
