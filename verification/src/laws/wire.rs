//! What the bytes of the accessory's messages mean.
use crate::aap::codec::{
    lossy_text, nul_at, nul_field, packet_of, AudioSourceState, BatteryComponent, ControlModel,
    DecodeError, PacketModel,
};
use crate::settings::{
    CallControls, HoldDuration, MicrophoneMode, PressSpeed, SettingModel,
};
use crate::state::{EarState, NoiseControlMode};
use vstd::prelude::*;

verus! {

/// A message of the accessory: prefix, opcode and payload.
pub open spec fn framed(opcode: u8, payload: Seq<u8>) -> Seq<u8> {
    seq![4u8, 0, 4, 0, opcode, 0] + payload
}

proof fn lemma_framed(opcode: u8, payload: Seq<u8>)
    ensures
        packet_of(framed(opcode, payload)) == crate::aap::codec::payload_of(opcode as u16, payload),
{
    let buf = framed(opcode, payload);
    assert(buf.skip(6) =~= payload);
    assert(buf.take(4) =~= seq![4u8, 0, 4, 0]);
    assert(crate::aap::opcode::PREFIX@ =~= seq![4u8, 0, 4, 0]);
    assert(crate::aap::opcode::ACK_PREFIX@[0] == 1);
    assert(buf.take(4)[0] == 4);
    assert(buf[4] == opcode && buf[5] == 0);
}

/// A message is read by its prefix: too short for prefix and opcode it is
/// truncated, the handshake's answer is one whatever follows, and a foreign
/// prefix is kept as it is.
pub proof fn the_prefix_decides(buf: Seq<u8>)
    ensures
        buf.len() < 6 ==> packet_of(buf) == Err::<PacketModel, DecodeError>(DecodeError::Truncated),
        buf.len() >= 6 && buf[0] == 1 && buf[1] == 0 && buf[2] == 4 && buf[3] == 0 ==> packet_of(
            buf,
        ) == Ok::<PacketModel, DecodeError>(PacketModel::HandshakeAck),
        buf.len() >= 6 && !((buf[0] == 1 || buf[0] == 4) && buf[1] == 0 && buf[2] == 4 && buf[3]
            == 0) ==> packet_of(buf) == Ok::<PacketModel, DecodeError>(
            PacketModel::Unknown {
                opcode: (buf[4] + 256 * buf[5]) as u16,
                payload: buf.subrange(6, buf.len() as int),
            },
        ),
        buf.len() >= 6 && buf[0] == 4 && buf[1] == 0 && buf[2] == 4 && buf[3] == 0 && buf[5] == 0
            ==> buf == framed(buf[4], buf.subrange(6, buf.len() as int)),
{
    assert(crate::aap::opcode::PREFIX@ =~= seq![4u8, 0, 4, 0]);
    assert(crate::aap::opcode::ACK_PREFIX@ =~= seq![1u8, 0, 4, 0]);
    if buf.len() >= 6 {
        assert(buf.take(4) =~= seq![buf[0], buf[1], buf[2], buf[3]]);
        assert(buf.skip(6) =~= buf.subrange(6, buf.len() as int));
        let ack = seq![1u8, 0, 4, 0];
        let own = seq![4u8, 0, 4, 0];
        if buf.take(4) == ack {
            assert(buf.take(4)[0] == ack[0] && buf.take(4)[1] == ack[1] && buf.take(4)[2] == ack[2]
                && buf.take(4)[3] == ack[3]);
        }
        if buf.take(4) == own {
            assert(buf.take(4)[0] == own[0] && buf.take(4)[1] == own[1] && buf.take(4)[2] == own[2]
                && buf.take(4)[3] == own[3]);
        }
        if buf[0] == 4 && buf[1] == 0 && buf[2] == 4 && buf[3] == 0 && buf[5] == 0 {
            assert(buf =~= framed(buf[4], buf.subrange(6, buf.len() as int)));
        }
    }
}

/// A message of no known opcode is kept as it is.
pub proof fn other_messages_are_kept(buf: Seq<u8>)
    requires
        buf.len() >= 6,
        buf.take(4) == seq![4u8, 0, 4, 0],
        buf[5] != 0 || !(seq![4u8, 6, 9, 0x0c, 0x0e, 0x11, 0x1d, 0x2b, 0x2e, 0x4b].contains(
            buf[4],
        )),
    ensures
        packet_of(buf) == Ok::<PacketModel, DecodeError>(
            PacketModel::Unknown {
                opcode: (buf[4] + 256 * buf[5]) as u16,
                payload: buf.subrange(6, buf.len() as int),
            },
        ),
{
    let known = seq![4u8, 6, 9, 0x0c, 0x0e, 0x11, 0x1d, 0x2b, 0x2e, 0x4b];
    assert(known[0] == 4 && known[1] == 6 && known[2] == 9 && known[3] == 0x0c && known[4] == 0x0e
        && known[5] == 0x11 && known[6] == 0x1d && known[7] == 0x2b && known[8] == 0x2e && known[9]
        == 0x4b);
    assert(crate::aap::opcode::PREFIX@ =~= seq![4u8, 0, 4, 0]);
    assert(crate::aap::opcode::ACK_PREFIX@[0] == 1);
    assert(buf.take(4)[0] == 4);
    assert(buf.skip(6) =~= buf.subrange(6, buf.len() as int));
}

/// Each battery record says its own cell: the component of its first byte, the
/// level of its third where the cell is there and the level is one, charging
/// exactly where its fourth byte is 1, and absent exactly where that is 4.
pub proof fn a_battery_record_is_its_bytes(payload: Seq<u8>, i: int)
    requires
        payload.len() >= 1,
        payload.len() >= 1 + 5 * payload[0],
        0 <= i < payload[0],
    ensures
        ({
            let first = payload[1 + 5 * i];
            let level = payload[1 + 5 * i + 2];
            let status = payload[1 + 5 * i + 3];
            &&& packet_of(framed(0x04, payload)) matches Ok(PacketModel::Battery(entries))
            &&& entries.len() == payload[0]
            &&& entries[i].charging <==> status == 1
            &&& entries[i].present <==> status != 4
            &&& entries[i].level == (if status != 4 && level <= 100 {
                Some(level)
            } else {
                None
            })
            &&& entries[i].component == BatteryComponent::Right <==> first == 2
            &&& entries[i].component == BatteryComponent::Left <==> first == 4
            &&& entries[i].component == BatteryComponent::Case <==> first == 8
            &&& first != 2 && first != 4 && first != 8 ==> entries[i].component
                == BatteryComponent::Other(first)
        }),
{
    lemma_framed(0x04, payload);
    let record = payload.subrange(1 + i * 5, 6 + i * 5);
    assert(record[0] == payload[1 + 5 * i]);
    assert(record[2] == payload[1 + 5 * i + 2]);
    assert(record[3] == payload[1 + 5 * i + 3]);
}

/// A battery message is read exactly where it holds the records it counts.
pub proof fn a_battery_message_holds_its_records(payload: Seq<u8>)
    ensures
        packet_of(framed(0x04, payload)) is Ok <==> payload.len() >= 1 && payload.len() >= 1 + 5
            * payload[0],
{
    lemma_framed(0x04, payload);
}

/// A wire byte of a bud: 0 in the ear, 1 out of it, 2 in the case.
pub open spec fn bud_at(byte: u8, state: EarState) -> bool {
    &&& state == EarState::In <==> byte == 0
    &&& state == EarState::Out <==> byte == 1
    &&& state == EarState::Case <==> byte == 2
}

/// An ear message says where the primary bud is, then the secondary.
pub proof fn an_ear_message_is_two_buds(payload: Seq<u8>)
    ensures
        packet_of(framed(0x06, payload)) is Ok <==> payload.len() >= 2,
        payload.len() >= 2 ==> (packet_of(framed(0x06, payload)) matches Ok(
            PacketModel::EarDetection { primary, secondary },
        ) && bud_at(payload[0], primary) && bud_at(payload[1], secondary)),
{
    lemma_framed(0x06, payload);
}

/// What a control message says, if it is one that can be read.
pub open spec fn control(payload: Seq<u8>) -> Option<ControlModel> {
    match packet_of(framed(0x09, payload)) {
        Ok(PacketModel::Control(c)) => Some(c),
        _ => None,
    }
}

/// Noise control is 1 off, 2 anc, 3 transparency, 4 adaptive; conversational
/// awareness is on exactly at 1; the adaptive level is at most 100; ownership
/// is 1 or 0. Any other value is kept as it is.
pub proof fn plain_controls_are_their_value(payload: Seq<u8>)
    requires
        payload.len() >= 2,
    ensures
        ({
            let id = payload[0];
            let value = payload[1];
            let raw = ControlModel::Other { id, value };
            &&& id == 0x0d ==> control(payload) == Some(
                if value == 1 {
                    ControlModel::NoiseControl(NoiseControlMode::Off)
                } else if value == 2 {
                    ControlModel::NoiseControl(NoiseControlMode::Anc)
                } else if value == 3 {
                    ControlModel::NoiseControl(NoiseControlMode::Transparency)
                } else if value == 4 {
                    ControlModel::NoiseControl(NoiseControlMode::Adaptive)
                } else {
                    raw
                },
            )
            &&& id == 0x28 ==> control(payload) == Some(
                ControlModel::ConversationalAwareness(value == 1),
            )
            &&& id == 0x2e ==> (control(payload) matches Some(ControlModel::AdaptiveLevel(l)) && l
                == vstd::math::min(value as int, 100))
            &&& id == 0x06 && value == 1 ==> control(payload) == Some(
                ControlModel::OwnsConnection(true),
            )
            &&& id == 0x06 && value == 0 ==> control(payload) == Some(
                ControlModel::OwnsConnection(false),
            )
            &&& id == 0x06 && value > 1 ==> control(payload) == Some(raw)
            &&& !(seq![0x01u8, 0x06, 0x0d, 0x17, 0x18, 0x1a, 0x24, 0x26, 0x28, 0x2e].contains(id))
                ==> control(payload) == Some(raw)
        }),
{
    lemma_framed(0x09, payload);
    let ids = seq![0x01u8, 0x06, 0x0d, 0x17, 0x18, 0x1a, 0x24, 0x26, 0x28, 0x2e];
    assert(ids[0] == 1 && ids[1] == 6 && ids[2] == 0x0d && ids[3] == 0x17 && ids[4] == 0x18
        && ids[5] == 0x1a && ids[6] == 0x24 && ids[7] == 0x26 && ids[8] == 0x28 && ids[9] == 0x2e);
}

/// A control message is truncated exactly where it lacks an identifier and a
/// value, or where a typed setting lacks its four data bytes.
pub proof fn a_control_message_holds_its_value(payload: Seq<u8>)
    ensures
        packet_of(framed(0x09, payload)) is Ok <==> payload.len() >= 2 && (payload.len() >= 5 || !(
        seq![0x01u8, 0x17, 0x18, 0x1a, 0x24, 0x26].contains(payload[0]))),
        packet_of(framed(0x09, payload)) is Ok ==> control(payload) is Some,
{
    lemma_framed(0x09, payload);
    let ids = seq![0x01u8, 0x17, 0x18, 0x1a, 0x24, 0x26];
    assert(ids[0] == 1 && ids[1] == 0x17 && ids[2] == 0x18 && ids[3] == 0x1a && ids[4] == 0x24
        && ids[5] == 0x26);
}

/// A typed setting is read from a frame of exactly five bytes whose padding is
/// zero, each value with its own meaning; any other frame of its identifier is
/// kept as it is.
pub proof fn typed_controls_are_their_bytes(id: u8, a: u8, b: u8, c: u8, d: u8)
    requires
        seq![0x01u8, 0x17, 0x18, 0x1a, 0x24, 0x26].contains(id),
    ensures
        ({
            let payload = seq![id, a, b, c, d];
            let raw = Some(ControlModel::Other { id, value: a });
            let one = b == 0 && c == 0 && d == 0;
            &&& id == 0x01 ==> control(payload) == (if one && a <= 2 {
                Some(
                    ControlModel::Setting(
                        SettingModel::Microphone(
                            if a == 0 {
                                MicrophoneMode::Auto
                            } else if a == 1 {
                                MicrophoneMode::Right
                            } else {
                                MicrophoneMode::Left
                            },
                        ),
                    ),
                )
            } else {
                raw
            })
            &&& id == 0x17 ==> control(payload) == (if one && a <= 2 {
                Some(
                    ControlModel::Setting(
                        SettingModel::PressSpeed(
                            if a == 0 {
                                PressSpeed::Default
                            } else if a == 1 {
                                PressSpeed::Slower
                            } else {
                                PressSpeed::Slowest
                            },
                        ),
                    ),
                )
            } else {
                raw
            })
            &&& id == 0x18 ==> control(payload) == (if one && a <= 2 {
                Some(
                    ControlModel::Setting(
                        SettingModel::HoldDuration(
                            if a == 0 {
                                HoldDuration::Default
                            } else if a == 1 {
                                HoldDuration::Shorter
                            } else {
                                HoldDuration::Shortest
                            },
                        ),
                    ),
                )
            } else {
                raw
            })
            &&& id == 0x26 ==> control(payload) == (if one && (a == 1 || a == 2) {
                Some(ControlModel::Setting(SettingModel::PersonalizedVolume(a == 1)))
            } else {
                raw
            })
            &&& id == 0x24 ==> control(payload) == (if a == 0 && (b == 3 || b == 2) && c == 0 && d
                == 0 {
                Some(
                    ControlModel::Setting(
                        SettingModel::CallControls(
                            if b == 3 {
                                CallControls::MuteOnceHangupTwice
                            } else {
                                CallControls::HangupOnceMuteTwice
                            },
                        ),
                    ),
                )
            } else {
                raw
            })
            &&& id == 0x1a && !(one && 1 <= a <= 15) ==> control(payload) == raw
        }),
{
    let payload = seq![id, a, b, c, d];
    lemma_framed(0x09, payload);
    let ids = seq![0x01u8, 0x17, 0x18, 0x1a, 0x24, 0x26];
    let k = choose|k: int| 0 <= k < ids.len() && ids[k] == id;
    let rest = payload.skip(1);
    assert(rest =~= seq![a, b, c, d]);
    assert(rest.skip(1) =~= seq![b, c, d]);
    let zero = seq![0u8, 0, 0];
    if rest.skip(1) == zero {
        assert(rest.skip(1)[0] == zero[0] && rest.skip(1)[1] == zero[1] && rest.skip(1)[2]
            == zero[2]);
    }
    let mute = seq![0x00u8, 0x03, 0x00, 0x00];
    let hang = seq![0x00u8, 0x02, 0x00, 0x00];
    if rest == mute {
        assert(rest[0] == mute[0] && rest[1] == mute[1] && rest[2] == mute[2] && rest[3]
            == mute[3]);
    }
    if rest == hang {
        assert(rest[0] == hang[0] && rest[1] == hang[1] && rest[2] == hang[2] && rest[3]
            == hang[3]);
    }
    if a == 0 && b == 3 && c == 0 && d == 0 {
        assert(rest =~= mute);
    }
    if a == 0 && b == 2 && c == 0 && d == 0 {
        assert(rest =~= hang);
        assert(hang[1] != mute[1]);
    }
    if b == 0 && c == 0 && d == 0 {
        assert(rest.skip(1) =~= zero);
    }
}

/// A typed control in a longer frame is no setting.
pub proof fn a_longer_frame_is_no_setting(payload: Seq<u8>)
    requires
        payload.len() > 5,
        seq![0x01u8, 0x17, 0x18, 0x1a, 0x24, 0x26].contains(payload[0]),
    ensures
        control(payload) == Some(ControlModel::Other { id: payload[0], value: payload[1] }),
{
    lemma_framed(0x09, payload);
    let ids = seq![0x01u8, 0x17, 0x18, 0x1a, 0x24, 0x26];
    let k = choose|k: int| 0 <= k < ids.len() && ids[k] == payload[0];
    assert(ids[k] == payload[0]);
}

/// The bit of a mode.
pub open spec fn bit_of(mode: NoiseControlMode) -> int {
    match mode {
        NoiseControlMode::Off => 1,
        NoiseControlMode::Anc => 2,
        NoiseControlMode::Transparency => 4,
        NoiseControlMode::Adaptive => 8,
    }
}

/// A report of the listening-mode cycle names the modes of its bits, in order:
/// 1 off, 2 anc, 4 transparency, 8 adaptive.
pub proof fn a_cycle_is_its_bits(a: u8)
    requires
        1 <= a <= 15,
    ensures
        ({
            let payload = seq![0x1au8, a, 0, 0, 0];
            &&& control(payload) matches Some(
                ControlModel::Setting(SettingModel::ListeningModeCycle(modes)),
            )
            &&& modes.contains(NoiseControlMode::Off) <==> a as int % 2 == 1
            &&& modes.contains(NoiseControlMode::Anc) <==> (a as int / 2) % 2 == 1
            &&& modes.contains(NoiseControlMode::Transparency) <==> (a as int / 4) % 2 == 1
            &&& modes.contains(NoiseControlMode::Adaptive) <==> (a as int / 8) % 2 == 1
            &&& forall|i: int, j: int|
                0 <= i < j < modes.len() ==> bit_of(#[trigger] modes[i]) < bit_of(
                    #[trigger] modes[j],
                )
        }),
{
    let payload = seq![0x1au8, a, 0, 0, 0];
    lemma_framed(0x09, payload);
    let rest = payload.skip(1);
    assert(rest =~= seq![a, 0u8, 0, 0]);
    assert(rest.skip(1) =~= seq![0u8, 0, 0]);
    let s1 = if a % 2 == 1 {
        seq![NoiseControlMode::Off]
    } else {
        Seq::<NoiseControlMode>::empty()
    };
    let s2 = if (a / 2) % 2 == 1 {
        s1.push(NoiseControlMode::Anc)
    } else {
        s1
    };
    let s3 = if (a / 4) % 2 == 1 {
        s2.push(NoiseControlMode::Transparency)
    } else {
        s2
    };
    let s4 = if (a / 8) % 2 == 1 {
        s3.push(NoiseControlMode::Adaptive)
    } else {
        s3
    };
    assert(control(payload) == Some(
        ControlModel::Setting(SettingModel::ListeningModeCycle(s4)),
    ));
    if a % 2 == 1 {
        assert(s4[0] == NoiseControlMode::Off);
    }
    if (a / 2) % 2 == 1 {
        assert(s4[s1.len() as int] == NoiseControlMode::Anc);
    }
    if (a / 4) % 2 == 1 {
        assert(s4[s2.len() as int] == NoiseControlMode::Transparency);
    }
    if (a / 8) % 2 == 1 {
        assert(s4[s3.len() as int] == NoiseControlMode::Adaptive);
    }
}

/// Six wire bytes are an address, least significant octet first.
pub open spec fn written_backwards(address: Seq<u8>, payload: Seq<u8>) -> bool {
    address.len() == 6 && forall|k: int| 0 <= k < 6 ==> #[trigger] address[k] == payload[5 - k]
}

/// An address report, an audio source and a relayed message name their host
/// backwards; behind it come two bytes, a state of 0 idle, 1 call, 2 media, or
/// a length and a body that is cut to it.
pub proof fn hosts_are_named_backwards(payload: Seq<u8>)
    ensures
        packet_of(framed(0x0c, payload)) is Ok <==> payload.len() >= 8,
        payload.len() >= 8 ==> (packet_of(framed(0x0c, payload)) matches Ok(
            PacketModel::AddressReport { address, extra },
        ) && written_backwards(address, payload) && extra == seq![payload[6], payload[7]]),
        packet_of(framed(0x0e, payload)) is Ok <==> payload.len() >= 7,
        payload.len() >= 7 ==> (packet_of(framed(0x0e, payload)) matches Ok(
            PacketModel::AudioSource { address, state },
        ) && written_backwards(address, payload) && state == (if payload[6] == 0 {
            AudioSourceState::Idle
        } else if payload[6] == 1 {
            AudioSourceState::Call
        } else if payload[6] == 2 {
            AudioSourceState::Media
        } else {
            AudioSourceState::Other(payload[6])
        })),
        packet_of(framed(0x11, payload)) is Ok <==> payload.len() >= 8,
        payload.len() >= 8 ==> (packet_of(framed(0x11, payload)) matches Ok(
            PacketModel::SmartRouting { sender, body },
        ) && written_backwards(sender, payload) && body.len() == vstd::math::min(
            payload[6] + 256 * payload[7],
            payload.len() - 8,
        ) && forall|k: int| 0 <= k < body.len() ==> #[trigger] body[k] == payload[8 + k]),
{
    lemma_framed(0x0c, payload);
    lemma_framed(0x0e, payload);
    lemma_framed(0x11, payload);
    if payload.len() >= 7 {
        assert(written_backwards(payload.take(6).reverse(), payload));
    }
    if payload.len() >= 8 {
        assert(payload.subrange(6, 8) =~= seq![payload[6], payload[7]]);
    }
}

/// A list of hosts: two bytes, a count, and eight bytes for each, its address
/// forwards and two bytes of its own. A short list keeps what is complete.
pub proof fn a_list_of_hosts_is_its_records(payload: Seq<u8>)
    ensures
        packet_of(framed(0x2e, payload)) is Ok <==> payload.len() >= 3,
        payload.len() >= 3 ==> {
            &&& packet_of(framed(0x2e, payload)) matches Ok(
                PacketModel::ConnectedDevices { header, devices },
            )
            &&& header == seq![payload[0], payload[1]]
            &&& devices.len() <= payload[2]
            &&& 3 + 8 * devices.len() <= payload.len()
            &&& devices.len() == payload[2] || payload.len() < 3 + 8 * (devices.len() + 1)
            &&& forall|i: int|
                0 <= i < devices.len() ==> (#[trigger] devices[i]).address.len() == 6
                    && devices[i].info == seq![payload[9 + 8 * i], payload[10 + 8 * i]]
            &&& forall|i: int, k: int|
                0 <= i < devices.len() && 0 <= k < 6 ==> (#[trigger] devices[i].address[k])
                    == payload[3 + 8 * i + k]
        },
{
    lemma_framed(0x2e, payload);
    if payload.len() >= 3 {
        assert(payload.take(2) =~= seq![payload[0], payload[1]]);
        let devices = crate::aap::codec::devices_of(payload);
        assert forall|i: int| 0 <= i < devices.len() implies (#[trigger] devices[i]).info == seq![
            payload[9 + 8 * i],
            payload[10 + 8 * i],
        ] by {
            assert(payload.subrange(9 + i * 8, 11 + i * 8) =~= seq![
                payload[9 + 8 * i],
                payload[10 + 8 * i],
            ]);
        }
    }
}

/// The features acknowledgement needs nothing more, and a speech event is the
/// last byte of its message.
pub proof fn short_messages(payload: Seq<u8>)
    ensures
        packet_of(framed(0x2b, payload)) == Ok::<PacketModel, DecodeError>(
            PacketModel::FeaturesAck,
        ),
        packet_of(framed(0x4b, payload)) is Ok <==> payload.len() >= 1,
        payload.len() >= 1 ==> packet_of(framed(0x4b, payload)) == Ok::<PacketModel, DecodeError>(
            PacketModel::ConversationalAwarenessLevel(payload[payload.len() - 1]),
        ),
{
    lemma_framed(0x2b, payload);
    lemma_framed(0x4b, payload);
}

/// A text of the metadata: none where it is empty.
pub open spec fn text_of(field: Seq<u8>) -> Option<Seq<char>> {
    if lossy_text(field).len() == 0 {
        None
    } else {
        Some(lossy_text(field))
    }
}

/// No byte of the field is a NUL.
pub open spec fn unbroken(field: Seq<u8>) -> bool {
    forall|i: int| 0 <= i < field.len() ==> #[trigger] field[i] != 0
}

proof fn lemma_first_field(field: Seq<u8>, rest: Seq<u8>)
    requires
        unbroken(field),
        rest.len() == 0 || rest[0] == 0,
    ensures
        nul_at(field + rest) == field.len(),
    decreases field.len(),
{
    let all = field + rest;
    if field.len() > 0 {
        assert(all[0] == field[0]);
        assert(all.skip(1) =~= field.skip(1) + rest);
        lemma_first_field(field.skip(1), rest);
    } else {
        assert(all =~= rest);
    }
}

proof fn lemma_field(field: Seq<u8>, rest: Seq<u8>, k: nat)
    requires
        unbroken(field),
        rest.len() == 0 || rest[0] == 0,
    ensures
        nul_field(field + rest, 0) == Some(field),
        k > 0 ==> nul_field(field + rest, k) == (if rest.len() > 0 {
            nul_field(rest.skip(1), (k - 1) as nat)
        } else {
            None
        }),
{
    lemma_first_field(field, rest);
    let all = field + rest;
    assert(all.take(field.len() as int) =~= field);
    if rest.len() > 0 {
        assert(all.skip(field.len() as int + 1) =~= rest.skip(1));
    }
}

/// Metadata is five bytes, then name, model, manufacturer, serial and firmware
/// with a NUL between them; what follows a sixth NUL is ignored.
pub proof fn metadata_is_five_texts(
    head: Seq<u8>,
    name: Seq<u8>,
    model: Seq<u8>,
    maker: Seq<u8>,
    serial: Seq<u8>,
    firmware: Seq<u8>,
    rest: Seq<u8>,
)
    requires
        head.len() == 5,
        unbroken(name) && unbroken(model) && unbroken(maker) && unbroken(serial) && unbroken(
            firmware,
        ),
        rest.len() == 0 || rest[0] == 0,
    ensures
        packet_of(
            framed(
                0x1d,
                head + (name + (seq![0u8] + (model + (seq![0u8] + (maker + (seq![0u8] + (serial + (
                seq![0u8] + (firmware + rest)))))))))
            ),
        ) matches Ok(PacketModel::Metadata(m)) && m.name == text_of(name) && m.model == text_of(
            model,
        ) && m.manufacturer == text_of(maker) && m.serial == text_of(serial) && m.firmware
            == text_of(firmware),
{
    let r4 = seq![0u8] + (firmware + rest);
    let r3 = seq![0u8] + (serial + r4);
    let r2 = seq![0u8] + (maker + r3);
    let r1 = seq![0u8] + (model + r2);
    let strings = name + r1;
    lemma_framed(0x1d, head + strings);
    assert((head + strings).skip(5) =~= strings);
    assert(r1.skip(1) =~= model + r2);
    assert(r2.skip(1) =~= maker + r3);
    assert(r3.skip(1) =~= serial + r4);
    assert(r4.skip(1) =~= firmware + rest);
    lemma_field(name, r1, 1);
    lemma_field(name, r1, 2);
    lemma_field(name, r1, 3);
    lemma_field(name, r1, 4);
    lemma_field(model, r2, 1);
    lemma_field(model, r2, 2);
    lemma_field(model, r2, 3);
    lemma_field(maker, r3, 1);
    lemma_field(maker, r3, 2);
    lemma_field(serial, r4, 1);
    lemma_field(firmware, rest, 0);
}

/// A short metadata message names what it has: the fields it lacks are none,
/// and a message without five leading bytes names nothing.
pub proof fn short_metadata_names_less(head: Seq<u8>, name: Seq<u8>, model: Seq<u8>, lead: Seq<u8>)
    requires
        head.len() == 5,
        lead.len() < 5,
        unbroken(name) && unbroken(model),
    ensures
        packet_of(framed(0x1d, head + name)) matches Ok(PacketModel::Metadata(m)) && m.name
            == text_of(name) && m.model is None && m.manufacturer is None && m.serial is None
            && m.firmware is None,
        packet_of(framed(0x1d, head + (name + (seq![0u8] + model)))) matches Ok(
            PacketModel::Metadata(m),
        ) && m.name == text_of(name) && m.model == text_of(model) && m.manufacturer is None
            && m.serial is None && m.firmware is None,
        packet_of(framed(0x1d, lead)) matches Ok(PacketModel::Metadata(m)) && m.name is None
            && m.model is None && m.manufacturer is None && m.serial is None && m.firmware is None,
{
    let none = Seq::<u8>::empty();
    let r1 = seq![0u8] + model;
    lemma_framed(0x1d, head + name);
    lemma_framed(0x1d, head + (name + r1));
    lemma_framed(0x1d, lead);
    assert((head + name).skip(5) =~= name + none);
    assert((head + (name + r1)).skip(5) =~= name + r1);
    assert(r1.skip(1) =~= model + none);
    lemma_field(name, none, 1);
    lemma_field(name, none, 2);
    lemma_field(name, none, 3);
    lemma_field(name, none, 4);
    lemma_field(name, r1, 1);
    lemma_field(name, r1, 2);
    lemma_field(name, r1, 3);
    lemma_field(name, r1, 4);
    lemma_field(model, none, 1);
    lemma_field(model, none, 2);
    lemma_field(model, none, 3);
}

} // verus!
