//! What is written to the accessory and to other hosts, byte for byte, and
//! what is refused.
use super::supervisor::{control_write, on_the_link};
use crate::aap::codec::{
    features_bytes, handshake_bytes, le_bytes, opack_number, opack_text,
    routing_bytes, short_len, short_strings_keep_whole_characters, FeaturesVariant,
};
use crate::aap::session::command::{AfterSend, HandoffStepModel, PlanModel};
use crate::aap::session::{model_refusal, Moment, SessionModel};
use crate::address::Address;
use crate::ctl_proto::Request;
use crate::handoff;
use crate::rejoin;
use crate::settings::{
    name_refusal, setting_named, valid_name, written, CallControls, HoldDuration, JsonModel,
    MicrophoneMode, PressSpeed, SettingCommand, SettingModel,
};
use crate::state::NoiseControlMode;
use crate::text::{control_char, trimmed_is_exact, white_space};
use vstd::prelude::*;
use vstd::string::*;
use vstd::utf8::{encode_utf8, is_char_boundary};

verus! {

// ---------------------------------------------------------------------------
// Settings
// ---------------------------------------------------------------------------

/// The bit that a mode has in a listening-mode cycle, if it is listed.
pub open spec fn cycle_bit(modes: Seq<NoiseControlMode>, mode: NoiseControlMode, bit: u8) -> int {
    if modes.contains(mode) {
        bit as int
    } else {
        0
    }
}

/// The bytes that write a setting.
pub open spec fn setting_packet(setting: SettingModel) -> Seq<u8> {
    match setting {
        SettingModel::Microphone(MicrophoneMode::Auto) => control_write(0x01, 0),
        SettingModel::Microphone(MicrophoneMode::Right) => control_write(0x01, 1),
        SettingModel::Microphone(MicrophoneMode::Left) => control_write(0x01, 2),
        SettingModel::PressSpeed(PressSpeed::Default) => control_write(0x17, 0),
        SettingModel::PressSpeed(PressSpeed::Slower) => control_write(0x17, 1),
        SettingModel::PressSpeed(PressSpeed::Slowest) => control_write(0x17, 2),
        SettingModel::HoldDuration(HoldDuration::Default) => control_write(0x18, 0),
        SettingModel::HoldDuration(HoldDuration::Shorter) => control_write(0x18, 1),
        SettingModel::HoldDuration(HoldDuration::Shortest) => control_write(0x18, 2),
        SettingModel::ListeningModeCycle(modes) => control_write(
            0x1a,
            (cycle_bit(modes, NoiseControlMode::Off, 1) + cycle_bit(modes, NoiseControlMode::Anc, 2)
                + cycle_bit(modes, NoiseControlMode::Transparency, 4) + cycle_bit(
                modes,
                NoiseControlMode::Adaptive,
                8,
            )) as u8,
        ),
        SettingModel::CallControls(CallControls::MuteOnceHangupTwice) => seq![
            4u8, 0, 4, 0, 9, 0, 0x24, 0, 3, 0, 0,
        ],
        SettingModel::CallControls(CallControls::HangupOnceMuteTwice) => seq![
            4u8, 0, 4, 0, 9, 0, 0x24, 0, 2, 0, 0,
        ],
        SettingModel::PersonalizedVolume(true) => control_write(0x26, 1),
        SettingModel::PersonalizedVolume(false) => control_write(0x26, 2),
    }
}

/// Settings and the name are written to one model only: any other one is
/// refused, by its number where it has one.
pub proof fn one_model_takes_writes(model: Seq<char>)
    ensures
        model_refusal(model) is None <==> model == "201B"@,
        model.len() == 0 ==> model_refusal(model) == Some(
            "device model is unknown; settings and rename require AirPods 4 (ANC) model 201B"@,
        ),
        model.len() > 0 && model != "201B"@ ==> model_refusal(model) == Some(
            "unsupported device model "@ + model
                + "; settings and rename require AirPods 4 (ANC) model 201B"@,
        ),
{
    reveal_strlit("");
    reveal_strlit("201B");
    assert(""@.len() == 0);
    assert("201B"@.len() == 4);
    if model.len() == 0 {
        assert(model =~= ""@);
    }
}

/// What becomes of a write whose value is fine: it needs the link, and then
/// the model.
pub open spec fn write_on_the_link(m: SessionModel, model: Seq<char>, plan: PlanModel) -> PlanModel {
    on_the_link(
        m,
        match model_refusal(model) {
            Some(why) => PlanModel::Refuse(why),
            None => plan,
        },
    )
}

proof fn lemma_setting_packet(setting: SettingModel)
    ensures
        crate::aap::codec::control_bytes(
            crate::aap::codec::setting_wire(setting).0,
            crate::aap::codec::setting_wire(setting).1,
        ) == setting_packet(setting),
{
    let (id, data) = crate::aap::codec::setting_wire(setting);
    assert(crate::aap::opcode::PREFIX@ =~= seq![4u8, 0, 4, 0]);
    assert(le_bytes(9) =~= seq![9u8, 0]);
    assert(crate::aap::codec::control_bytes(id, data) =~= setting_packet(setting));
}

/// A setting is one write, and read back once it went out. Only a cycle of
/// fewer than two modes, or with one twice, is refused for its value.
pub proof fn a_setting_is_one_write(
    m: SessionModel,
    setting: SettingCommand,
    model: Seq<char>,
    can_save: bool,
    rejoin: Option<rejoin::Pending>,
    t: Moment,
)
    ensures
        m.planned(Request::SetSetting { setting }, model, can_save, rejoin, t) == (
            m,
            if setting is ListeningModeCycle && setting->ListeningModeCycle_0@.len() < 2 {
                PlanModel::Refuse("listening_mode_cycle needs at least two modes"@)
            } else if setting is ListeningModeCycle
                && !setting->ListeningModeCycle_0@.no_duplicates() {
                PlanModel::Refuse("listening_mode_cycle lists a mode twice"@)
            } else {
                write_on_the_link(
                    m,
                    model,
                    PlanModel::Send {
                        packet: setting_packet(setting@),
                        after: AfterSend::ReadBackSetting(setting),
                    },
                )
            },
        ),
{
    lemma_setting_packet(setting@);
}

/// The words of the settings.
pub proof fn settings_have_their_words()
    ensures
        MicrophoneMode::Auto.word() == "auto"@,
        MicrophoneMode::Right.word() == "right"@,
        MicrophoneMode::Left.word() == "left"@,
        PressSpeed::Default.word() == "default"@,
        PressSpeed::Slower.word() == "slower"@,
        PressSpeed::Slowest.word() == "slowest"@,
        HoldDuration::Default.word() == "default"@,
        HoldDuration::Shorter.word() == "shorter"@,
        HoldDuration::Shortest.word() == "shortest"@,
        CallControls::MuteOnceHangupTwice.word() == "mute_once_hangup_twice"@,
        CallControls::HangupOnceMuteTwice.word() == "hangup_once_mute_twice"@,
        NoiseControlMode::Off.word() == "off"@,
        NoiseControlMode::Anc.word() == "anc"@,
        NoiseControlMode::Transparency.word() == "transparency"@,
        NoiseControlMode::Adaptive.word() == "adaptive"@,
        forall|v: MicrophoneMode| SettingModel::Microphone(v).key() == "microphone"@,
        forall|v: PressSpeed| SettingModel::PressSpeed(v).key() == "press_speed"@,
        forall|v: HoldDuration| SettingModel::HoldDuration(v).key() == "hold_duration"@,
        forall|v: Seq<NoiseControlMode>|
            SettingModel::ListeningModeCycle(v).key() == "listening_mode_cycle"@,
        forall|v: CallControls| SettingModel::CallControls(v).key() == "call_controls"@,
        forall|v: bool| SettingModel::PersonalizedVolume(v).key() == "personalized_volume"@,
{
}

/// A key and a value name a setting exactly when they are its key and its
/// value: every word is taken for what it says, and no other one for anything.
pub proof fn a_named_setting_is_the_one_written(
    key: Seq<char>,
    value: JsonModel,
    setting: SettingModel,
)
    ensures
        setting_named(key, value) == Some(setting) <==> key == setting.key() && value == written(
            setting,
        ),
{
    if setting_named(key, value) == Some(setting) {
        if let SettingModel::ListeningModeCycle(modes) = setting {
            lemma_named_modes(value->List_0, modes);
        }
    }
    crate::settings::written_settings_read_back(setting);
}

proof fn lemma_named_modes(names: Seq<Option<Seq<char>>>, modes: Seq<NoiseControlMode>)
    requires
        crate::settings::modes_of(names) == Some(modes),
    ensures
        names == modes.map_values(|m: NoiseControlMode| Some(m.word())),
    decreases names.len(),
{
    let words = modes.map_values(|m: NoiseControlMode| Some(m.word()));
    if names.len() == 0 {
        assert(names =~= words);
    } else {
        let front = crate::settings::modes_of(names.drop_last())->Some_0;
        lemma_named_modes(names.drop_last(), front);
        let mode = NoiseControlMode::of_word(names.last()->Some_0)->Some_0;
        assert(modes =~= front.push(mode));
        assert(words =~= front.map_values(|m: NoiseControlMode| Some(m.word())).push(
            Some(mode.word()),
        ));
        assert(names =~= names.drop_last().push(names.last()));
    }
}

// ---------------------------------------------------------------------------
// The name
// ---------------------------------------------------------------------------

/// A name with a character that shows.
pub open spec fn shows(name: Seq<char>) -> bool {
    exists|i: int| 0 <= i < name.len() && !white_space(#[trigger] name[i])
}

/// A name with a control character.
pub open spec fn controls(name: Seq<char>) -> bool {
    exists|i: int|
        0 <= i < name.len() && ((#[trigger] name[i]) as u32 <= 0x1f || 0x7f <= name[i] as u32
            <= 0x9f)
}

/// A name is taken when it shows, has at most 255 bytes and no control
/// character, and refused for the first of these that fails.
pub proof fn when_a_name_is_taken(name: Seq<char>)
    ensures
        valid_name(name) <==> shows(name) && encode_utf8(name).len() <= 255 && !controls(name),
        !shows(name) ==> name_refusal(name) == "the name must not be blank"@,
        shows(name) && encode_utf8(name).len() > 255 ==> name_refusal(name)
            == "the name must not be longer than 255 bytes of UTF-8"@,
        shows(name) && encode_utf8(name).len() <= 255 && controls(name) ==> name_refusal(name)
            == "the name must not contain control characters"@,
{
    trimmed_is_exact(name);
    assert(controls(name) <==> exists|i: int|
        0 <= i < name.len() && control_char(#[trigger] name[i])) by {
        if controls(name) {
            let i = choose|i: int|
                0 <= i < name.len() && ((#[trigger] name[i]) as u32 <= 0x1f || 0x7f
                    <= name[i] as u32 <= 0x9f);
            assert(control_char(name[i]));
        }
        if exists|i: int| 0 <= i < name.len() && control_char(#[trigger] name[i]) {
            let i = choose|i: int| 0 <= i < name.len() && control_char(#[trigger] name[i]);
            assert(name[i] as u32 <= 0x1f || 0x7f <= name[i] as u32 <= 0x9f);
        }
    }
}

/// A rename is one write: a constant, the length in bytes, and the name.
pub proof fn a_rename_is_one_write(
    m: SessionModel,
    name: String,
    model: Seq<char>,
    can_save: bool,
    rejoin: Option<rejoin::Pending>,
    t: Moment,
)
    ensures
        m.planned(Request::Rename { name }, model, can_save, rejoin, t) == (
            m,
            if valid_name(name@) {
                write_on_the_link(
                    m,
                    model,
                    PlanModel::Send {
                        packet: seq![4u8, 0, 4, 0, 0x1a, 0, 1, encode_utf8(name@).len() as u8, 0]
                            + encode_utf8(name@),
                        after: AfterSend::ReadBackName(name),
                    },
                )
            } else {
                PlanModel::Refuse(name_refusal(name@))
            },
        ),
{
    let bytes = encode_utf8(name@);
    assert(crate::aap::opcode::PREFIX@ =~= seq![4u8, 0, 4, 0]);
    assert(le_bytes(0x1a) =~= seq![0x1au8, 0]);
    assert(crate::aap::codec::rename_bytes(name@) =~= seq![
        4u8, 0, 4, 0, 0x1a, 0, 1, bytes.len() as u8, 0,
    ] + bytes);
}

// ---------------------------------------------------------------------------
// The opening
// ---------------------------------------------------------------------------

/// The packets that open a link.
pub proof fn opening_packets()
    ensures
        handshake_bytes() == seq![0u8, 0, 4, 0, 1, 0, 2, 0, 0, 0, 0, 0, 0, 0, 0, 0],
        features_bytes(FeaturesVariant::D7) == seq![
            4u8, 0, 4, 0, 0x4d, 0, 0xd7, 0, 0, 0, 0, 0, 0, 0,
        ],
        features_bytes(FeaturesVariant::Alt) == seq![
            4u8, 0, 4, 0, 0x4d, 0, 0x0e, 0, 0, 0, 0, 0, 0, 0,
        ],
        features_bytes(FeaturesVariant::Ff) == seq![
            4u8, 0, 4, 0, 0x4d, 0, 0xff, 0, 0, 0, 0, 0, 0, 0,
        ],
{
}

// ---------------------------------------------------------------------------
// Messages to other hosts
// ---------------------------------------------------------------------------

/// A text in a message: a tag with its length, and its bytes. A text of more
/// than 32 bytes is cut after its last whole character that fits.
pub proof fn a_text_is_its_bytes(text: Seq<char>)
    ensures
        ({
            let bytes = encode_utf8(text);
            let n = opack_text(text).len() - 1;
            &&& 0 <= n <= 32 && n <= bytes.len()
            &&& opack_text(text)[0] == 0x40 + n
            &&& opack_text(text).skip(1) == bytes.take(n)
            &&& bytes.len() <= 32 ==> n == bytes.len()
            &&& forall|i: int| n < i <= 32 && i <= bytes.len() ==> !is_char_boundary(bytes, i)
        }),
{
    let bytes = encode_utf8(text);
    short_strings_keep_whole_characters(text);
    let n = short_len(bytes);
    vstd::utf8::encode_utf8_valid_utf8(text);
    assert(n <= bytes.len()) by {
        if bytes.len() <= 32 {
            assert(n == bytes.len());
        }
    }
    assert(opack_text(text).skip(1) =~= bytes.take(n));
}

/// A number in a message: below forty in its tag, below 128 in one byte after
/// it, and else in two, least significant first.
pub proof fn a_number_is_its_bytes(v: u16)
    ensures
        v < 40 ==> opack_number(v) == seq![(8 + v) as u8],
        40 <= v < 128 ==> opack_number(v) == seq![0x30u8, v as u8],
        v >= 128 ==> opack_number(v) == seq![0x31u8, (v as int % 256) as u8, (v as int / 256) as u8],
{
    if v >= 128 {
        assert(opack_number(v) =~= seq![0x31u8, (v as int % 256) as u8, (v as int / 256) as u8]);
    }
}

/// A message to a host: the header, its address least significant octet first,
/// the length of the body and the body.
pub proof fn a_message_is_framed(target: Address, body: Seq<u8>)
    requires
        body.len() < 0x10000,
    ensures
        ({
            let a = target.0@;
            routing_bytes(0x10, a, body) == seq![
                4u8, 0, 4, 0, 0x10, 0, a[5], a[4], a[3], a[2], a[1], a[0],
                (body.len() as int % 256) as u8, (body.len() as int / 256) as u8,
            ] + body
        }),
{
    let a = target.0@;
    assert(crate::aap::opcode::PREFIX@ =~= seq![4u8, 0, 4, 0]);
    assert(le_bytes(0x10) =~= seq![0x10u8, 0]);
    assert(a.len() == 6);
    assert(a.reverse() =~= seq![a[5], a[4], a[3], a[2], a[1], a[0]]);
    assert(routing_bytes(0x10, a, body) =~= seq![
        4u8, 0, 4, 0, 0x10, 0, a[5], a[4], a[3], a[2], a[1], a[0],
        (body.len() as int % 256) as u8, (body.len() as int / 256) as u8,
    ] + body);
}

/// A value in a message.
pub enum Said {
    /// A text.
    Text(Seq<char>),
    /// A number.
    Number(u16),
    /// Yes.
    Yes,
    /// The sixth value of the message once more.
    Again,
}

/// A value as bytes.
pub open spec fn said_bytes(value: Said) -> Seq<u8> {
    match value {
        Said::Text(text) => opack_text(text),
        Said::Number(n) => opack_number(n),
        Said::Yes => seq![1u8],
        Said::Again => seq![0xa5u8],
    }
}

/// Keys with their values, as bytes, in order.
pub open spec fn pairs_bytes(pairs: Seq<(Seq<char>, Said)>) -> Seq<u8>
    decreases pairs.len(),
{
    if pairs.len() == 0 {
        Seq::empty()
    } else {
        pairs_bytes(pairs.drop_last()) + opack_text(pairs.last().0) + said_bytes(pairs.last().1)
    }
}

/// A message of five pairs.
pub open spec fn message(pairs: Seq<(Seq<char>, Said)>) -> Seq<u8> {
    seq![1u8, 0xe5] + pairs_bytes(pairs)
}

proof fn lemma_five_pairs(
    a: (Seq<char>, Said),
    b: (Seq<char>, Said),
    c: (Seq<char>, Said),
    d: (Seq<char>, Said),
    e: (Seq<char>, Said),
)
    ensures
        message(seq![a, b, c, d, e]) == seq![1u8, 0xe5] + opack_text(a.0) + said_bytes(a.1)
            + opack_text(b.0) + said_bytes(b.1) + opack_text(c.0) + said_bytes(c.1) + opack_text(
            d.0,
        ) + said_bytes(d.1) + opack_text(e.0) + said_bytes(e.1),
{
    let none = Seq::<(Seq<char>, Said)>::empty();
    assert(seq![a, b, c, d, e].drop_last() =~= seq![a, b, c, d]);
    assert(seq![a, b, c, d].drop_last() =~= seq![a, b, c]);
    assert(seq![a, b, c].drop_last() =~= seq![a, b]);
    assert(seq![a, b].drop_last() =~= seq![a]);
    assert(seq![a].drop_last() =~= none);
    assert(pairs_bytes(none) =~= Seq::<u8>::empty());
    let p1 = pairs_bytes(seq![a]);
    assert(p1 == pairs_bytes(none) + opack_text(a.0) + said_bytes(a.1));
    assert(p1 =~= opack_text(a.0) + said_bytes(a.1));
    let p2 = pairs_bytes(seq![a, b]);
    assert(p2 == p1 + opack_text(b.0) + said_bytes(b.1));
    let p3 = pairs_bytes(seq![a, b, c]);
    assert(p3 == p2 + opack_text(c.0) + said_bytes(c.1));
    let p4 = pairs_bytes(seq![a, b, c, d]);
    assert(p4 == p3 + opack_text(d.0) + said_bytes(d.1));
    let p5 = pairs_bytes(seq![a, b, c, d, e]);
    assert(p5 == p4 + opack_text(e.0) + said_bytes(e.1));
    let start = seq![1u8, 0xe5];
    assert(start + p5 =~= start + opack_text(a.0) + said_bytes(a.1) + opack_text(b.0) + said_bytes(
        b.1,
    ) + opack_text(c.0) + said_bytes(c.1) + opack_text(d.0) + said_bytes(d.1) + opack_text(e.0)
        + said_bytes(e.1));
}

/// The body of each message to another host.
pub open spec fn message_of(m: SessionModel, action: handoff::ActionModel) -> Option<
    (Address, Seq<u8>),
> {
    let address = ("btAddress"@, Said::Text(m.adapter->0.text()));
    let name = ("btName"@, Said::Text(m.bt_name));
    match action {
        handoff::ActionModel::SendHijack { target } => Some(
            (
                target,
                message(
                    seq![
                        ("localscore"@, Said::Number(100)),
                        ("reason"@, Said::Text("Hijackv2"@)),
                        ("audioRoutingScore"@, Said::Number(301)),
                        ("audioRoutingSetOwnershipToFalse"@, Said::Yes),
                        ("remotescore"@, Said::Again),
                    ],
                ),
            ),
        ),
        handoff::ActionModel::SendMediaInfo { target, streaming, app } => Some(
            (
                target,
                message(
                    seq![
                        ("PlayingApp"@, Said::Text(app)),
                        (
                            "HostStreamingState"@,
                            Said::Text(
                                if streaming {
                                    "YES"@
                                } else {
                                    "NO"@
                                },
                            ),
                        ),
                        address,
                        name,
                        ("otherDeviceAudioCategory"@, Said::Number(301)),
                    ],
                ),
            ),
        ),
        handoff::ActionModel::SendNewDeviceMediaInfo { target } => Some(
            (
                target,
                message(
                    seq![
                        ("playingApp"@, Said::Text("NA"@)),
                        ("hostStreamingState"@, Said::Text("NO"@)),
                        address,
                        name,
                        ("otherDeviceAudioCategory"@, Said::Number(100)),
                    ],
                ),
            ),
        ),
        handoff::ActionModel::SendNewTipi { target } => Some(
            (
                target,
                message(
                    seq![
                        ("idleTime"@, Said::Number(0)),
                        ("newTipi"@, Said::Yes),
                        address,
                        name,
                        ("nearbyAudioScore"@, Said::Number(6)),
                    ],
                ),
            ),
        ),
        _ => None,
    }
}

/// Each message to another host says what it is for, over an open link. All
/// but the request to give the audio up also name this host, and wait until
/// its address is known.
pub proof fn messages_say_what_they_are_for(m: SessionModel, action: handoff::ActionModel)
    requires
        message_of(m, action) is Some,
    ensures
        m.performed(action) == (
            m,
            if !(action is SendHijack) && m.adapter is None {
                HandoffStepModel::Nothing
            } else if !m.open {
                HandoffStepModel::NoLink
            } else {
                HandoffStepModel::Send(
                    routing_bytes(
                        0x10,
                        (message_of(m, action)->Some_0).0.0@,
                        (message_of(m, action)->Some_0).1,
                    ),
                )
            },
        ),
{
    let address = ("btAddress"@, Said::Text(m.adapter->0.text()));
    let name = ("btName"@, Said::Text(m.bt_name));
    assert(crate::aap::codec::body_start(5) =~= seq![1u8, 0xe5]);
    match action {
        handoff::ActionModel::SendHijack { target } => {
            lemma_five_pairs(
                ("localscore"@, Said::Number(100)),
                ("reason"@, Said::Text("Hijackv2"@)),
                ("audioRoutingScore"@, Said::Number(301)),
                ("audioRoutingSetOwnershipToFalse"@, Said::Yes),
                ("remotescore"@, Said::Again),
            );
        },
        handoff::ActionModel::SendMediaInfo { target, streaming, app } => {
            lemma_five_pairs(
                ("PlayingApp"@, Said::Text(app)),
                (
                    "HostStreamingState"@,
                    Said::Text(
                        if streaming {
                            "YES"@
                        } else {
                            "NO"@
                        },
                    ),
                ),
                address,
                name,
                ("otherDeviceAudioCategory"@, Said::Number(301)),
            );
        },
        handoff::ActionModel::SendNewDeviceMediaInfo { target } => {
            lemma_five_pairs(
                ("playingApp"@, Said::Text("NA"@)),
                ("hostStreamingState"@, Said::Text("NO"@)),
                address,
                name,
                ("otherDeviceAudioCategory"@, Said::Number(100)),
            );
        },
        handoff::ActionModel::SendNewTipi { target } => {
            lemma_five_pairs(
                ("idleTime"@, Said::Number(0)),
                ("newTipi"@, Said::Yes),
                address,
                name,
                ("nearbyAudioScore"@, Said::Number(6)),
            );
        },
        _ => {},
    }
}

} // verus!
