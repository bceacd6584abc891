//! AAP encode and decode over byte slices.
//!
//! Framing is SEQPACKET: one `recv()` is exactly one message, so there is no
//! re-framing and no length prefix to honour. Unknown opcodes decode to
//! [`Packet::Unknown`] and are never an error.
use crate::aap::opcode as op;
use crate::address::Address;
use crate::settings::{
    name_refusal, valid_name, validate_name, CallControls, HoldDuration, MicrophoneMode, PressSpeed,
    SettingCommand, SettingModel,
};
use crate::state::{EarState, NoiseControlMode};
use crate::text::{occurs_at, occurs_in, text_view};
use vstd::prelude::*;
use vstd::slice::{slice_subrange, slice_to_vec};
use vstd::string::*;
use vstd::utf8::{
    decode_utf8, encode_utf8, encode_utf8_valid_utf8, is_char_boundary,
    is_char_boundary_start_end_of_seq, valid_utf8, valid_utf8_split,
};

verus! {

/// The only way decoding can fail: the packet is shorter than its own contents
/// claim. Anything else decodes to [`Packet::Unknown`].
#[derive(Debug, Clone, Copy, PartialEq, Eq, Structural)]
pub enum DecodeError {
    /// Packet is shorter than the header, or shorter than its declared payload.
    Truncated,
}

impl DecodeError {
    /// The error in words.
    pub fn to_string(&self) -> (r: String)
        ensures
            r@ == "packet truncated"@,
    {
        "packet truncated".to_owned()
    }
}

/// Which physical cell a battery entry describes.
#[derive(Debug, Clone, Copy, PartialEq, Eq, Structural)]
pub enum BatteryComponent {
    /// Right bud.
    Right,
    /// Left bud.
    Left,
    /// Charging case.
    Case,
    /// Something else this firmware reports.
    Other(u8),
}

impl BatteryComponent {
    /// The cell a wire byte stands for.
    pub open spec fn of_wire(v: u8) -> BatteryComponent {
        if v == 0x02 {
            BatteryComponent::Right
        } else if v == 0x04 {
            BatteryComponent::Left
        } else if v == 0x08 {
            BatteryComponent::Case
        } else {
            BatteryComponent::Other(v)
        }
    }

    /// The cell a wire byte stands for.
    pub fn from_wire(v: u8) -> (r: BatteryComponent)
        ensures
            r == BatteryComponent::of_wire(v),
    {
        match v {
            0x02 => BatteryComponent::Right,
            0x04 => BatteryComponent::Left,
            0x08 => BatteryComponent::Case,
            other => BatteryComponent::Other(other),
        }
    }
}

/// One decoded battery entry.
#[derive(Debug, Clone, Copy, PartialEq, Eq, Structural)]
pub struct BatteryEntry {
    /// Which cell.
    pub component: BatteryComponent,
    /// Exact 0-100 level, `None` when the component is disconnected or the
    /// firmware reported an out-of-range value.
    pub level: Option<u8>,
    /// Charging.
    pub charging: bool,
    /// Reporting at all.
    pub present: bool,
}

/// Metadata strings, positionally assigned and tolerant of a short or
/// over-long list.
#[derive(Debug, Clone, PartialEq, Eq)]
pub struct Metadata {
    /// Bluetooth name.
    pub name: Option<String>,
    /// Model number as the accessory reports it, e.g. `A3056`. Kept raw; any
    /// mapping to a marketing name happens above this layer.
    pub model: Option<String>,
    /// Manufacturer.
    pub manufacturer: Option<String>,
    /// Serial.
    pub serial: Option<String>,
    /// Firmware revision.
    pub firmware: Option<String>,
}

impl Default for Metadata {
    fn default() -> (r: Self)
        ensures
            r@ == (MetadataModel {
                name: None,
                model: None,
                manufacturer: None,
                serial: None,
                firmware: None,
            }),
    {
        Metadata { name: None, model: None, manufacturer: None, serial: None, firmware: None }
    }
}

/// Metadata with its texts read as sequences.
#[verifier::ext_equal]
pub struct MetadataModel {
    /// Bluetooth name.
    pub name: Option<Seq<char>>,
    /// Model number.
    pub model: Option<Seq<char>>,
    /// Manufacturer.
    pub manufacturer: Option<Seq<char>>,
    /// Serial.
    pub serial: Option<Seq<char>>,
    /// Firmware revision.
    pub firmware: Option<Seq<char>>,
}

impl View for Metadata {
    type V = MetadataModel;

    open spec fn view(&self) -> MetadataModel {
        MetadataModel {
            name: text_view(self.name),
            model: text_view(self.model),
            manufacturer: text_view(self.manufacturer),
            serial: text_view(self.serial),
            firmware: text_view(self.firmware),
        }
    }
}

/// A control value echoed back by the accessory.
#[derive(Debug, Clone, PartialEq, Eq)]
pub enum ControlState {
    /// Noise control mode.
    NoiseControl(NoiseControlMode),
    /// Conversational awareness on/off.
    ConversationalAwareness(bool),
    /// Adaptive transparency level 0-100.
    AdaptiveLevel(u8),
    /// A typed setting confirmed by the accessory.
    Setting(SettingCommand),
    /// Whether this host owns the audio connection.
    OwnsConnection(bool),
    /// A control identifier or value that is not modelled.
    Other {
        /// Control identifier byte.
        id: u8,
        /// Raw value byte.
        value: u8,
    },
}

/// A control value with its list read as a sequence.
#[verifier::ext_equal]
pub enum ControlModel {
    /// See [`ControlState::NoiseControl`].
    NoiseControl(NoiseControlMode),
    /// See [`ControlState::ConversationalAwareness`].
    ConversationalAwareness(bool),
    /// See [`ControlState::AdaptiveLevel`].
    AdaptiveLevel(u8),
    /// See [`ControlState::Setting`].
    Setting(SettingModel),
    /// See [`ControlState::OwnsConnection`].
    OwnsConnection(bool),
    /// See [`ControlState::Other`].
    Other {
        /// Control identifier byte.
        id: u8,
        /// Raw value byte.
        value: u8,
    },
}

impl View for ControlState {
    type V = ControlModel;

    open spec fn view(&self) -> ControlModel {
        match *self {
            ControlState::NoiseControl(m) => ControlModel::NoiseControl(m),
            ControlState::ConversationalAwareness(on) => ControlModel::ConversationalAwareness(on),
            ControlState::AdaptiveLevel(l) => ControlModel::AdaptiveLevel(l),
            ControlState::Setting(s) => ControlModel::Setting(s@),
            ControlState::OwnsConnection(own) => ControlModel::OwnsConnection(own),
            ControlState::Other { id, value } => ControlModel::Other { id, value },
        }
    }
}

/// Status byte of an audio-source report.
#[derive(Debug, Clone, Copy, PartialEq, Eq, Structural)]
pub enum AudioSourceState {
    /// 0x00: nothing is routed.
    Idle,
    /// 0x01: a call.
    Call,
    /// 0x02: media playback.
    Media,
    /// Any other value, kept raw.
    Other(u8),
}

impl AudioSourceState {
    /// The state a wire byte stands for.
    pub open spec fn of_wire(v: u8) -> AudioSourceState {
        if v == 0x00 {
            AudioSourceState::Idle
        } else if v == 0x01 {
            AudioSourceState::Call
        } else if v == 0x02 {
            AudioSourceState::Media
        } else {
            AudioSourceState::Other(v)
        }
    }

    /// The state a wire byte stands for.
    pub fn from_wire(v: u8) -> (r: AudioSourceState)
        ensures
            r == AudioSourceState::of_wire(v),
    {
        match v {
            0x00 => AudioSourceState::Idle,
            0x01 => AudioSourceState::Call,
            0x02 => AudioSourceState::Media,
            other => AudioSourceState::Other(other),
        }
    }
}

/// Value of [`ConnectedDevice::info`] byte 0 for a host whose link to the
/// accessory is up.
pub const LINK_UP: u8 = 0x02;

/// One host listed in a connected-devices report.
#[derive(Debug, Clone, Copy, PartialEq, Eq)]
pub struct ConnectedDevice {
    /// Host address, sent in display order.
    pub address: Address,
    /// Two trailing bytes per host. Byte 0 is the host's link state: `0x00`
    /// listed but down, `0x01` connecting, `0x02` up. Byte 1 varies
    /// independently and is left alone.
    pub info: [u8; 2],
}

impl ConnectedDevice {
    /// Whether this host's link to the accessory is up right now. The AirPods
    /// keep a recently disconnected host in the list, so being listed says
    /// nothing.
    pub fn is_link_up(&self) -> (r: bool)
        ensures
            r == (self.info[0] == LINK_UP),
    {
        self.info[0] == LINK_UP
    }
}

/// A decoded AAP message.
#[derive(Debug, Clone, PartialEq, Eq)]
pub enum Packet {
    /// Reply to the opening handshake.
    HandshakeAck,
    /// Acknowledgement of set-features.
    FeaturesAck,
    /// Battery notification.
    Battery(Vec<BatteryEntry>),
    /// In-ear detection, in wire order: primary bud then secondary.
    EarDetection {
        /// Primary bud.
        primary: EarState,
        /// Secondary bud.
        secondary: EarState,
    },
    /// Control state echo.
    Control(ControlState),
    /// Device metadata.
    Metadata(Metadata),
    /// Conversational awareness speech event: the duck level the buds applied
    /// because the wearer is talking. Not the on/off state.
    ConversationalAwarenessLevel(u8),
    /// Address report: an address and two unexplained bytes.
    AddressReport {
        /// Address, in display order.
        address: Address,
        /// Trailing bytes, kept raw.
        extra: [u8; 2],
    },
    /// Audio source: which host the accessory routes for.
    AudioSource {
        /// Host address, in display order.
        address: Address,
        /// What that host is doing.
        state: AudioSourceState,
    },
    /// Every host linked to the accessory.
    ConnectedDevices {
        /// Two leading bytes, kept raw.
        header: [u8; 2],
        /// Hosts in wire order.
        devices: Vec<ConnectedDevice>,
    },
    /// Smart-routing message another host sent via the accessory.
    SmartRouting {
        /// Sending host, in display order.
        sender: Address,
        /// OPACK body, clipped to its declared length.
        body: Vec<u8>,
    },
    /// Anything else; never an error.
    Unknown {
        /// Little-endian opcode.
        opcode: u16,
        /// Everything after the header.
        payload: Vec<u8>,
    },
}

/// A host as mathematical values: its octets and the two trailing bytes.
#[verifier::ext_equal]
pub struct DeviceModel {
    /// Address octets in display order.
    pub address: Seq<u8>,
    /// Trailing bytes.
    pub info: Seq<u8>,
}

/// A message as mathematical values. Addresses are octets in display order.
#[verifier::ext_equal]
pub enum PacketModel {
    /// See [`Packet::HandshakeAck`].
    HandshakeAck,
    /// See [`Packet::FeaturesAck`].
    FeaturesAck,
    /// See [`Packet::Battery`].
    Battery(Seq<BatteryEntry>),
    /// See [`Packet::EarDetection`].
    EarDetection {
        /// Primary bud.
        primary: EarState,
        /// Secondary bud.
        secondary: EarState,
    },
    /// See [`Packet::Control`].
    Control(ControlModel),
    /// See [`Packet::Metadata`].
    Metadata(MetadataModel),
    /// See [`Packet::ConversationalAwarenessLevel`].
    ConversationalAwarenessLevel(u8),
    /// See [`Packet::AddressReport`].
    AddressReport {
        /// Address octets.
        address: Seq<u8>,
        /// Trailing bytes.
        extra: Seq<u8>,
    },
    /// See [`Packet::AudioSource`].
    AudioSource {
        /// Address octets.
        address: Seq<u8>,
        /// What that host is doing.
        state: AudioSourceState,
    },
    /// See [`Packet::ConnectedDevices`].
    ConnectedDevices {
        /// Leading bytes.
        header: Seq<u8>,
        /// Hosts in wire order.
        devices: Seq<DeviceModel>,
    },
    /// See [`Packet::SmartRouting`].
    SmartRouting {
        /// Address octets.
        sender: Seq<u8>,
        /// Body.
        body: Seq<u8>,
    },
    /// See [`Packet::Unknown`].
    Unknown {
        /// Opcode.
        opcode: u16,
        /// Payload.
        payload: Seq<u8>,
    },
}

impl View for ConnectedDevice {
    type V = DeviceModel;

    open spec fn view(&self) -> DeviceModel {
        DeviceModel { address: self.address.0@, info: self.info@ }
    }
}

impl View for Packet {
    type V = PacketModel;

    open spec fn view(&self) -> PacketModel {
        match *self {
            Packet::HandshakeAck => PacketModel::HandshakeAck,
            Packet::FeaturesAck => PacketModel::FeaturesAck,
            Packet::Battery(entries) => PacketModel::Battery(entries@),
            Packet::EarDetection { primary, secondary } => PacketModel::EarDetection {
                primary,
                secondary,
            },
            Packet::Control(c) => PacketModel::Control(c@),
            Packet::Metadata(m) => PacketModel::Metadata(m@),
            Packet::ConversationalAwarenessLevel(
                l,
            ) => PacketModel::ConversationalAwarenessLevel(l),
            Packet::AddressReport { address, extra } => PacketModel::AddressReport {
                address: address.0@,
                extra: extra@,
            },
            Packet::AudioSource { address, state } => PacketModel::AudioSource {
                address: address.0@,
                state,
            },
            Packet::ConnectedDevices { header, devices } => PacketModel::ConnectedDevices {
                header: header@,
                devices: devices@.map_values(|d: ConnectedDevice| d@),
            },
            Packet::SmartRouting { sender, body } => PacketModel::SmartRouting {
                sender: sender.0@,
                body: body@,
            },
            Packet::Unknown { opcode, payload } => PacketModel::Unknown {
                opcode,
                payload: payload@,
            },
        }
    }
}

/// Where a bud is, from its wire byte.
pub open spec fn ear_of_wire(v: u8) -> EarState {
    if v == 0x00 {
        EarState::In
    } else if v == 0x01 {
        EarState::Out
    } else if v == 0x02 {
        EarState::Case
    } else {
        EarState::Unknown
    }
}

/// Where a bud is, from its wire byte.
pub fn ear_from_wire(v: u8) -> (r: EarState)
    ensures
        r == ear_of_wire(v),
{
    match v {
        0x00 => EarState::In,
        0x01 => EarState::Out,
        0x02 => EarState::Case,
        _ => EarState::Unknown,
    }
}

/// A little-endian number of two bytes.
pub open spec fn le16(low: u8, high: u8) -> int {
    low + 256 * high
}

/// The two bytes of a number, least significant first.
pub open spec fn le_bytes(n: int) -> Seq<u8> {
    seq![(n % 256) as u8, (n / 256) as u8]
}

fn read_le16(low: u8, high: u8) -> (r: u16)
    ensures
        r == le16(low, high),
{
    low as u16 + 256 * (high as u16)
}

/// A battery record: component, one byte, level, status, one byte.
pub open spec fn battery_entry(record: Seq<u8>) -> BatteryEntry {
    let present = record[3] != 0x04;
    BatteryEntry {
        component: BatteryComponent::of_wire(record[0]),
        level: if present && record[2] <= 100 {
            Some(record[2])
        } else {
            None
        },
        charging: record[3] == 0x01,
        present,
    }
}

/// A battery payload: a count, and that many records of five bytes.
pub open spec fn battery_of(payload: Seq<u8>) -> Result<Seq<BatteryEntry>, DecodeError> {
    if payload.len() < 1 || payload.len() < 1 + payload[0] * 5 {
        Err(DecodeError::Truncated)
    } else {
        Ok(
            Seq::new(
                payload[0] as nat,
                |i: int| battery_entry(payload.subrange(1 + i * 5, 6 + i * 5)),
            ),
        )
    }
}

/// The modes whose bit a mask has set, in bit order.
pub open spec fn modes_of_mask(mask: u8) -> Seq<NoiseControlMode> {
    let off = if mask % 2 == 1 {
        seq![NoiseControlMode::Off]
    } else {
        Seq::empty()
    };
    let anc = if (mask / 2) % 2 == 1 {
        off.push(NoiseControlMode::Anc)
    } else {
        off
    };
    let transparency = if (mask / 4) % 2 == 1 {
        anc.push(NoiseControlMode::Transparency)
    } else {
        anc
    };
    if (mask / 8) % 2 == 1 {
        transparency.push(NoiseControlMode::Adaptive)
    } else {
        transparency
    }
}

/// The mask with the bit of each listed mode set.
pub open spec fn mask_of_modes(modes: Seq<NoiseControlMode>) -> u8 {
    ((if modes.contains(NoiseControlMode::Off) { 1int } else { 0 }) + (if modes.contains(
        NoiseControlMode::Anc,
    ) { 2int } else { 0 }) + (if modes.contains(NoiseControlMode::Transparency) {
        4int
    } else {
        0
    }) + (if modes.contains(NoiseControlMode::Adaptive) { 8int } else { 0 })) as u8
}

/// A control that carries a typed setting in a frame of exactly five bytes.
pub open spec fn typed_setting(id: u8) -> bool {
    id == op::CTL_MICROPHONE || id == op::CTL_PRESS_SPEED || id == op::CTL_HOLD_DURATION || id
        == op::CTL_LISTENING_MODE_CYCLE || id == op::CTL_CALL_CONTROLS || id
        == op::CTL_PERSONALIZED_VOLUME
}

/// The setting that a control of one meaningful byte and zero padding reports.
pub open spec fn scalar_setting(id: u8, value: u8) -> Option<SettingModel> {
    if id == op::CTL_MICROPHONE {
        if value == 0 {
            Some(SettingModel::Microphone(MicrophoneMode::Auto))
        } else if value == 1 {
            Some(SettingModel::Microphone(MicrophoneMode::Right))
        } else if value == 2 {
            Some(SettingModel::Microphone(MicrophoneMode::Left))
        } else {
            None
        }
    } else if id == op::CTL_PRESS_SPEED {
        if value == 0 {
            Some(SettingModel::PressSpeed(PressSpeed::Default))
        } else if value == 1 {
            Some(SettingModel::PressSpeed(PressSpeed::Slower))
        } else if value == 2 {
            Some(SettingModel::PressSpeed(PressSpeed::Slowest))
        } else {
            None
        }
    } else if id == op::CTL_HOLD_DURATION {
        if value == 0 {
            Some(SettingModel::HoldDuration(HoldDuration::Default))
        } else if value == 1 {
            Some(SettingModel::HoldDuration(HoldDuration::Shorter))
        } else if value == 2 {
            Some(SettingModel::HoldDuration(HoldDuration::Shortest))
        } else {
            None
        }
    } else if id == op::CTL_LISTENING_MODE_CYCLE {
        // A report describes firmware state, not a proposed write: one mode
        // alone is kept, though a write needs two.
        if 1 <= value <= 0x0f {
            Some(SettingModel::ListeningModeCycle(modes_of_mask(value)))
        } else {
            None
        }
    } else if id == op::CTL_PERSONALIZED_VOLUME {
        if value == 1 {
            Some(SettingModel::PersonalizedVolume(true))
        } else if value == 2 {
            Some(SettingModel::PersonalizedVolume(false))
        } else {
            None
        }
    } else {
        None
    }
}

/// The setting that the data bytes of a typed control report, if they do.
pub open spec fn setting_of(id: u8, data: Seq<u8>) -> Option<SettingModel> {
    if id == op::CTL_CALL_CONTROLS {
        if data == seq![0x00u8, 0x03, 0x00, 0x00] {
            Some(SettingModel::CallControls(CallControls::MuteOnceHangupTwice))
        } else if data == seq![0x00u8, 0x02, 0x00, 0x00] {
            Some(SettingModel::CallControls(CallControls::HangupOnceMuteTwice))
        } else {
            None
        }
    } else if data.skip(1) == seq![0u8, 0, 0] {
        scalar_setting(id, data[0])
    } else {
        None
    }
}

/// A control payload: an identifier and its data.
pub open spec fn control_of(payload: Seq<u8>) -> Result<ControlModel, DecodeError> {
    let id = payload[0];
    let value = payload[1];
    if payload.len() < 2 || (typed_setting(id) && payload.len() < 5) {
        Err(DecodeError::Truncated)
    } else if typed_setting(id) {
        Ok(
            match if payload.len() == 5 {
                setting_of(id, payload.skip(1))
            } else {
                None
            } {
                Some(s) => ControlModel::Setting(s),
                None => ControlModel::Other { id, value },
            },
        )
    } else if id == op::CTL_NOISE_CONTROL {
        Ok(
            match NoiseControlMode::of_wire(value) {
                Some(m) => ControlModel::NoiseControl(m),
                None => ControlModel::Other { id, value },
            },
        )
    } else if id == op::CTL_CONV_AWARENESS {
        Ok(ControlModel::ConversationalAwareness(value == 0x01))
    } else if id == op::CTL_ADAPTIVE_LEVEL {
        Ok(ControlModel::AdaptiveLevel(if value <= 100 { value } else { 100 }))
    } else if id == op::CTL_OWNS_CONNECTION && value <= 1 {
        Ok(ControlModel::OwnsConnection(value == 0x01))
    } else {
        Ok(ControlModel::Other { id, value })
    }
}

/// Index of the first NUL byte, or the length.
pub open spec fn nul_at(bytes: Seq<u8>) -> int
    decreases bytes.len(),
{
    if bytes.len() == 0 || bytes[0] == 0 {
        0
    } else {
        1 + nul_at(bytes.skip(1))
    }
}

/// The `k`th of the NUL-separated fields.
pub open spec fn nul_field(bytes: Seq<u8>, k: nat) -> Option<Seq<u8>>
    decreases k,
{
    let end = nul_at(bytes);
    if k == 0 {
        Some(bytes.take(end))
    } else if end < bytes.len() {
        nul_field(bytes.skip(end + 1), (k - 1) as nat)
    } else {
        None
    }
}

/// What the standard library reads from bytes as text, replacing what is not
/// UTF-8.
pub uninterp spec fn lossy_text(bytes: Seq<u8>) -> Seq<char>;

/// `String::from_utf8_lossy`. The text is a function of the bytes, and valid
/// UTF-8 reads as itself.
#[verifier::external_body]
pub(crate) fn text_lossy(bytes: &[u8]) -> (r: String)
    ensures
        r@ == lossy_text(bytes@),
        valid_utf8(bytes@) ==> r@ == decode_utf8(bytes@),
{
    String::from_utf8_lossy(bytes).into_owned()
}

/// One metadata string: `None` when it is missing or empty.
pub open spec fn metadata_text(strings: Seq<u8>, k: nat) -> Option<Seq<char>> {
    match nul_field(strings, k) {
        Some(field) => if lossy_text(field).len() > 0 {
            Some(lossy_text(field))
        } else {
            None
        },
        None => None,
    }
}

/// A field that is UTF-8 is read as exactly that text, and an empty one as
/// none.
pub open spec fn plain_field(strings: Seq<u8>, k: nat, text: Option<Seq<char>>) -> bool {
    match nul_field(strings, k) {
        Some(field) => valid_utf8(field) ==> text == (if field.len() > 0 {
            Some(decode_utf8(field))
        } else {
            None
        }),
        None => true,
    }
}

/// A metadata payload: name, model number, manufacturer, serial and firmware
/// are the first five strings, which start behind five bytes of their own. A
/// payload shorter than that names nothing; further strings are ignored.
pub open spec fn metadata_of(payload: Seq<u8>) -> MetadataModel {
    if payload.len() < op::METADATA_SKIP {
        MetadataModel {
            name: None,
            model: None,
            manufacturer: None,
            serial: None,
            firmware: None,
        }
    } else {
        let strings = payload.skip(op::METADATA_SKIP as int);
        MetadataModel {
            name: metadata_text(strings, 0),
            model: metadata_text(strings, 1),
            manufacturer: metadata_text(strings, 2),
            serial: metadata_text(strings, 3),
            firmware: metadata_text(strings, 4),
        }
    }
}

/// A connected-devices payload: two bytes, a count, and records of eight
/// bytes. A short list keeps what is complete.
pub open spec fn devices_of(payload: Seq<u8>) -> Seq<DeviceModel> {
    let complete = (payload.len() - 3) / 8;
    let count = if payload[2] <= complete {
        payload[2] as int
    } else {
        complete
    };
    Seq::new(
        count as nat,
        |i: int|
            DeviceModel {
                address: payload.subrange(3 + i * 8, 9 + i * 8),
                info: payload.subrange(9 + i * 8, 11 + i * 8),
            },
    )
}

/// A smart-routing body, clipped to its declared length.
pub open spec fn routing_body(payload: Seq<u8>) -> Seq<u8> {
    let declared = le16(payload[6], payload[7]);
    let body = payload.skip(8);
    if declared < body.len() {
        body.take(declared)
    } else {
        body
    }
}

/// What a framed payload says, by opcode.
pub open spec fn payload_of(opcode: u16, payload: Seq<u8>) -> Result<PacketModel, DecodeError> {
    if opcode == op::OP_BATTERY {
        match battery_of(payload) {
            Ok(entries) => Ok(PacketModel::Battery(entries)),
            Err(e) => Err(e),
        }
    } else if opcode == op::OP_EAR_DETECTION {
        if payload.len() < 2 {
            Err(DecodeError::Truncated)
        } else {
            Ok(
                PacketModel::EarDetection {
                    primary: ear_of_wire(payload[0]),
                    secondary: ear_of_wire(payload[1]),
                },
            )
        }
    } else if opcode == op::OP_CONTROL {
        match control_of(payload) {
            Ok(c) => Ok(PacketModel::Control(c)),
            Err(e) => Err(e),
        }
    } else if opcode == op::OP_METADATA {
        Ok(PacketModel::Metadata(metadata_of(payload)))
    } else if opcode == op::OP_FEATURES_ACK {
        Ok(PacketModel::FeaturesAck)
    } else if opcode == op::OP_CONV_AWARENESS_EVENT {
        if payload.len() == 0 {
            Err(DecodeError::Truncated)
        } else {
            Ok(PacketModel::ConversationalAwarenessLevel(payload.last()))
        }
    } else if opcode == op::OP_ADDRESS_REPORT {
        if payload.len() < 8 {
            Err(DecodeError::Truncated)
        } else {
            Ok(
                PacketModel::AddressReport {
                    address: payload.take(6).reverse(),
                    extra: payload.subrange(6, 8),
                },
            )
        }
    } else if opcode == op::OP_AUDIO_SOURCE {
        if payload.len() < 7 {
            Err(DecodeError::Truncated)
        } else {
            Ok(
                PacketModel::AudioSource {
                    address: payload.take(6).reverse(),
                    state: AudioSourceState::of_wire(payload[6]),
                },
            )
        }
    } else if opcode == op::OP_CONNECTED_DEVICES {
        if payload.len() < 3 {
            Err(DecodeError::Truncated)
        } else {
            Ok(
                PacketModel::ConnectedDevices {
                    header: payload.take(2),
                    devices: devices_of(payload),
                },
            )
        }
    } else if opcode == op::OP_SMART_ROUTING_RELAY {
        if payload.len() < 8 {
            Err(DecodeError::Truncated)
        } else {
            Ok(
                PacketModel::SmartRouting {
                    sender: payload.take(6).reverse(),
                    body: routing_body(payload),
                },
            )
        }
    } else {
        Ok(PacketModel::Unknown { opcode, payload })
    }
}

/// What one datagram says. Shorter than its header it is truncated; on the
/// acknowledgement prefix it is an acknowledgement, whatever follows; on any
/// other foreign prefix it is unknown.
pub open spec fn packet_of(buf: Seq<u8>) -> Result<PacketModel, DecodeError> {
    if buf.len() < op::HEADER_LEN {
        Err(DecodeError::Truncated)
    } else {
        let opcode = le16(buf[4], buf[5]) as u16;
        let payload = buf.skip(op::HEADER_LEN as int);
        if buf.take(4) == op::ACK_PREFIX@ {
            Ok(PacketModel::HandshakeAck)
        } else if buf.take(4) != op::PREFIX@ {
            Ok(PacketModel::Unknown { opcode, payload })
        } else {
            payload_of(opcode, payload)
        }
    }
}

/// Result of decoding, as mathematical values.
pub open spec fn decode_view(r: Result<Packet, DecodeError>) -> Result<PacketModel, DecodeError> {
    match r {
        Ok(p) => Ok(p@),
        Err(e) => Err(e),
    }
}

fn has_prefix(buf: &[u8], prefix: [u8; 4]) -> (r: bool)
    requires
        buf@.len() >= 4,
    ensures
        r == (buf@.take(4) == prefix@),
{
    proof {
        assert(buf@.take(4) =~= seq![buf@[0], buf@[1], buf@[2], buf@[3]]);
        assert(prefix@ =~= seq![prefix@[0], prefix@[1], prefix@[2], prefix@[3]]);
        if buf@.take(4) == prefix@ {
            assert(buf@.take(4)[0] == prefix@[0]);
            assert(buf@.take(4)[1] == prefix@[1]);
            assert(buf@.take(4)[2] == prefix@[2]);
            assert(buf@.take(4)[3] == prefix@[3]);
        }
    }
    buf[0] == prefix[0] && buf[1] == prefix[1] && buf[2] == prefix[2] && buf[3] == prefix[3]
}

/// Decode one SEQPACKET datagram.
pub fn decode(buf: &[u8]) -> (r: Result<Packet, DecodeError>)
    ensures
        decode_view(r) == packet_of(buf@),
{
    if buf.len() < op::HEADER_LEN {
        return Err(DecodeError::Truncated);
    }
    if has_prefix(buf, op::ACK_PREFIX) {
        return Ok(Packet::HandshakeAck);
    }
    let opcode: u16 = read_le16(buf[4], buf[5]);
    let payload: &[u8] = slice_subrange(buf, op::HEADER_LEN, buf.len());
    proof {
        assert(payload@ =~= buf@.skip(op::HEADER_LEN as int));
    }
    if !has_prefix(buf, op::PREFIX) {
        return Ok(Packet::Unknown { opcode, payload: slice_to_vec(payload) });
    }
    decode_payload(opcode, payload)
}

fn decode_payload(opcode: u16, payload: &[u8]) -> (r: Result<Packet, DecodeError>)
    ensures
        decode_view(r) == payload_of(opcode, payload@),
{
    match opcode {
        op::OP_BATTERY => match decode_battery(payload) {
            Ok(entries) => Ok(Packet::Battery(entries)),
            Err(e) => Err(e),
        },
        op::OP_EAR_DETECTION => {
            if payload.len() < 2 {
                return Err(DecodeError::Truncated);
            }
            Ok(
                Packet::EarDetection {
                    primary: ear_from_wire(payload[0]),
                    secondary: ear_from_wire(payload[1]),
                },
            )
        },
        op::OP_CONTROL => {
            if payload.len() < 2 {
                return Err(DecodeError::Truncated);
            }
            match decode_control(payload) {
                Ok(c) => Ok(Packet::Control(c)),
                Err(e) => Err(e),
            }
        },
        op::OP_METADATA => Ok(Packet::Metadata(decode_metadata(payload))),
        op::OP_FEATURES_ACK => Ok(Packet::FeaturesAck),
        op::OP_CONV_AWARENESS_EVENT => {
            if payload.len() == 0 {
                return Err(DecodeError::Truncated);
            }
            // Observed layout: 02 00 [level]. Take the last byte so a shorter
            // variant still yields something sensible.
            Ok(Packet::ConversationalAwarenessLevel(payload[payload.len() - 1]))
        },
        op::OP_ADDRESS_REPORT => {
            if payload.len() < 8 {
                return Err(DecodeError::Truncated);
            }
            let extra: [u8; 2] = [payload[6], payload[7]];
            proof {
                assert(extra@ =~= payload@.subrange(6, 8));
            }
            Ok(Packet::AddressReport { address: address_reversed(payload), extra })
        },
        op::OP_AUDIO_SOURCE => {
            if payload.len() < 7 {
                return Err(DecodeError::Truncated);
            }
            Ok(
                Packet::AudioSource {
                    address: address_reversed(payload),
                    state: AudioSourceState::from_wire(payload[6]),
                },
            )
        },
        op::OP_CONNECTED_DEVICES => decode_connected_devices(payload),
        op::OP_SMART_ROUTING_RELAY => {
            if payload.len() < 8 {
                return Err(DecodeError::Truncated);
            }
            let declared: usize = read_le16(payload[6], payload[7]) as usize;
            let rest: usize = payload.len() - 8;
            let end: usize = if declared < rest {
                8 + declared
            } else {
                payload.len()
            };
            let body: Vec<u8> = slice_to_vec(slice_subrange(payload, 8, end));
            proof {
                assert(body@ =~= routing_body(payload@));
            }
            Ok(Packet::SmartRouting { sender: address_reversed(payload), body })
        },
        _ => Ok(Packet::Unknown { opcode, payload: slice_to_vec(payload) }),
    }
}

/// Address bytes sent least significant first.
fn address_reversed(b: &[u8]) -> (r: Address)
    requires
        b@.len() >= 6,
    ensures
        r.0@ == b@.take(6).reverse(),
{
    let octets: [u8; 6] = [b[5], b[4], b[3], b[2], b[1], b[0]];
    proof {
        assert(octets@ =~= b@.take(6).reverse());
    }
    Address(octets)
}

fn decode_connected_devices(payload: &[u8]) -> (r: Result<Packet, DecodeError>)
    ensures
        decode_view(r) == payload_of(op::OP_CONNECTED_DEVICES, payload@),
{
    if payload.len() < 3 {
        return Err(DecodeError::Truncated);
    }
    let count: usize = payload[2] as usize;
    // Tolerate a short list: keep what is complete.
    let complete: usize = (payload.len() - 3) / 8;
    let total: usize = if count <= complete {
        count
    } else {
        complete
    };
    let mut devices: Vec<ConnectedDevice> = Vec::new();
    let mut i: usize = 0;
    let ghost all = devices_of(payload@);
    while i < total
        invariant
            i <= total,
            total <= complete,
            complete == (payload@.len() - 3) / 8,
            payload@.len() >= 3,
            all == devices_of(payload@),
            total == all.len(),
            devices@.len() == i,
            forall|k: int| 0 <= k < i ==> (#[trigger] devices@[k])@ == all[k],
        decreases total - i,
    {
        let at: usize = 3 + i * 8;
        let octets: [u8; 6] = [
            payload[at],
            payload[at + 1],
            payload[at + 2],
            payload[at + 3],
            payload[at + 4],
            payload[at + 5],
        ];
        let info: [u8; 2] = [payload[at + 6], payload[at + 7]];
        proof {
            assert(octets@ =~= payload@.subrange(3 + i * 8, 9 + i * 8));
            assert(info@ =~= payload@.subrange(9 + i * 8, 11 + i * 8));
        }
        devices.push(ConnectedDevice { address: Address(octets), info });
        i = i + 1;
    }
    let header: [u8; 2] = [payload[0], payload[1]];
    proof {
        assert(header@ =~= payload@.take(2));
        assert(devices@.map_values(|d: ConnectedDevice| d@) =~= all);
    }
    Ok(Packet::ConnectedDevices { header, devices })
}

/// Result of decoding a control, as mathematical values.
pub open spec fn control_view(r: Result<ControlState, DecodeError>) -> Result<
    ControlModel,
    DecodeError,
> {
    match r {
        Ok(c) => Ok(c@),
        Err(e) => Err(e),
    }
}

/// Decode a control payload of at least two bytes.
pub fn decode_control(payload: &[u8]) -> (r: Result<ControlState, DecodeError>)
    requires
        payload@.len() >= 2,
    ensures
        control_view(r) == control_of(payload@),
{
    let id: u8 = payload[0];
    let value: u8 = payload[1];
    let typed = match id {
        op::CTL_MICROPHONE | op::CTL_PRESS_SPEED | op::CTL_HOLD_DURATION
        | op::CTL_LISTENING_MODE_CYCLE | op::CTL_CALL_CONTROLS
        | op::CTL_PERSONALIZED_VOLUME => true,
        _ => false,
    };
    if typed && payload.len() < 5 {
        return Err(DecodeError::Truncated);
    }
    if typed && payload.len() != 5 {
        return Ok(ControlState::Other { id, value });
    }
    if typed {
        return Ok(
            match decode_setting(payload) {
                Some(s) => ControlState::Setting(s),
                None => ControlState::Other { id, value },
            },
        );
    }
    match id {
        op::CTL_NOISE_CONTROL => match NoiseControlMode::from_wire(value) {
            Some(m) => Ok(ControlState::NoiseControl(m)),
            None => Ok(ControlState::Other { id, value }),
        },
        op::CTL_CONV_AWARENESS => Ok(ControlState::ConversationalAwareness(value == 0x01)),
        op::CTL_ADAPTIVE_LEVEL => Ok(
            ControlState::AdaptiveLevel(
                if value <= 100 {
                    value
                } else {
                    100
                },
            ),
        ),
        op::CTL_OWNS_CONNECTION => Ok(
            match value {
                0x00 => ControlState::OwnsConnection(false),
                0x01 => ControlState::OwnsConnection(true),
                _ => ControlState::Other { id, value },
            },
        ),
        _ => Ok(ControlState::Other { id, value }),
    }
}

spec fn setting_view(s: Option<SettingCommand>) -> Option<SettingModel> {
    match s {
        Some(s) => Some(s@),
        None => None,
    }
}

fn decode_setting(payload: &[u8]) -> (r: Option<SettingCommand>)
    requires
        payload@.len() == 5,
        typed_setting(payload@[0]),
    ensures
        setting_view(r) == setting_of(payload@[0], payload@.skip(1)),
{
    let id: u8 = payload[0];
    let value: u8 = payload[1];
    proof {
        let data = payload@.skip(1);
        assert(data =~= seq![payload@[1], payload@[2], payload@[3], payload@[4]]);
        assert(data.skip(1) =~= seq![payload@[2], payload@[3], payload@[4]]);
        assert(data[0] == value);
    }
    let ghost data = payload@.skip(1);
    if id == op::CTL_CALL_CONTROLS {
        // Unlike scalar controls this setting uses two meaningful bytes,
        // followed by the two zero padding bytes of the fixed frame.
        let padded = payload[3] == 0 && payload[4] == 0;
        proof {
            let mute = seq![0x00u8, 0x03, 0x00, 0x00];
            let hangup = seq![0x00u8, 0x02, 0x00, 0x00];
            if data == mute {
                assert(data[1] == 0x03 && data[2] == 0 && data[3] == 0 && data[0] == 0);
            }
            if data == hangup {
                assert(data[1] == 0x02 && data[2] == 0 && data[3] == 0 && data[0] == 0);
            }
            if value == 0 && padded && payload@[2] == 0x03 {
                assert(data =~= mute);
            }
            if value == 0 && padded && payload@[2] == 0x02 {
                assert(data =~= hangup);
            }
        }
        if value == 0x00 && padded && payload[2] == 0x03 {
            return Some(SettingCommand::CallControls(CallControls::MuteOnceHangupTwice));
        }
        if value == 0x00 && padded && payload[2] == 0x02 {
            return Some(SettingCommand::CallControls(CallControls::HangupOnceMuteTwice));
        }
        return None;
    }
    let padded = payload[2] == 0 && payload[3] == 0 && payload[4] == 0;
    proof {
        let zeros = seq![0u8, 0, 0];
        if data.skip(1) == zeros {
            assert(data.skip(1)[0] == 0 && data.skip(1)[1] == 0 && data.skip(1)[2] == 0);
        }
        if padded {
            assert(data.skip(1) =~= zeros);
        }
    }
    if !padded {
        return None;
    }
    match id {
        op::CTL_MICROPHONE => match value {
            0x00 => Some(SettingCommand::Microphone(MicrophoneMode::Auto)),
            0x01 => Some(SettingCommand::Microphone(MicrophoneMode::Right)),
            0x02 => Some(SettingCommand::Microphone(MicrophoneMode::Left)),
            _ => None,
        },
        op::CTL_PRESS_SPEED => match value {
            0x00 => Some(SettingCommand::PressSpeed(PressSpeed::Default)),
            0x01 => Some(SettingCommand::PressSpeed(PressSpeed::Slower)),
            0x02 => Some(SettingCommand::PressSpeed(PressSpeed::Slowest)),
            _ => None,
        },
        op::CTL_HOLD_DURATION => match value {
            0x00 => Some(SettingCommand::HoldDuration(HoldDuration::Default)),
            0x01 => Some(SettingCommand::HoldDuration(HoldDuration::Shorter)),
            0x02 => Some(SettingCommand::HoldDuration(HoldDuration::Shortest)),
            _ => None,
        },
        op::CTL_LISTENING_MODE_CYCLE => {
            if 1 <= value && value <= 0x0f {
                Some(SettingCommand::ListeningModeCycle(listening_modes_from_mask(value)))
            } else {
                None
            }
        },
        op::CTL_PERSONALIZED_VOLUME => match value {
            0x01 => Some(SettingCommand::PersonalizedVolume(true)),
            0x02 => Some(SettingCommand::PersonalizedVolume(false)),
            _ => None,
        },
        _ => None,
    }
}

/// The modes whose bit a mask has set, in bit order.
pub fn listening_modes_from_mask(mask: u8) -> (r: Vec<NoiseControlMode>)
    ensures
        r@ == modes_of_mask(mask),
{
    let mut out: Vec<NoiseControlMode> = Vec::new();
    if mask % 2 == 1 {
        out.push(NoiseControlMode::Off);
    }
    proof {
        assert(out@ =~= if mask % 2 == 1 {
            seq![NoiseControlMode::Off]
        } else {
            Seq::empty()
        });
    }
    if (mask / 2) % 2 == 1 {
        out.push(NoiseControlMode::Anc);
    }
    if (mask / 4) % 2 == 1 {
        out.push(NoiseControlMode::Transparency);
    }
    if (mask / 8) % 2 == 1 {
        out.push(NoiseControlMode::Adaptive);
    }
    out
}

/// Decode a battery payload.
pub fn decode_battery(payload: &[u8]) -> (r: Result<Vec<BatteryEntry>, DecodeError>)
    ensures
        match r {
            Ok(entries) => battery_of(payload@) == Ok::<Seq<BatteryEntry>, DecodeError>(entries@),
            Err(e) => battery_of(payload@) == Err::<Seq<BatteryEntry>, DecodeError>(e),
        },
{
    if payload.len() < 1 {
        return Err(DecodeError::Truncated);
    }
    let count: usize = payload[0] as usize;
    if payload.len() < 1 + count * 5 {
        return Err(DecodeError::Truncated);
    }
    let ghost all = battery_of(payload@)->Ok_0;
    let mut out: Vec<BatteryEntry> = Vec::new();
    let mut i: usize = 0;
    while i < count
        invariant
            i <= count,
            count == payload@[0],
            payload@.len() >= 1 + count * 5,
            battery_of(payload@) == Ok::<Seq<BatteryEntry>, DecodeError>(all),
            out@.len() == i,
            forall|k: int| 0 <= k < i ==> out@[k] == all[k],
        decreases count - i,
    {
        let at: usize = 1 + i * 5;
        let component = BatteryComponent::from_wire(payload[at]);
        let level: u8 = payload[at + 2];
        let status: u8 = payload[at + 3];
        let present = status != 0x04;
        proof {
            let record = payload@.subrange(1 + i * 5, 6 + i * 5);
            assert(record[0] == payload@[at as int]);
            assert(record[2] == level);
            assert(record[3] == status);
        }
        out.push(
            BatteryEntry {
                component,
                level: if present && level <= 100 {
                    Some(level)
                } else {
                    None
                },
                charging: status == 0x01,
                present,
            },
        );
        i = i + 1;
    }
    proof {
        assert(out@ =~= all);
    }
    Ok(out)
}

proof fn lemma_nul_at(bytes: Seq<u8>)
    ensures
        0 <= nul_at(bytes) <= bytes.len(),
        forall|i: int| 0 <= i < nul_at(bytes) ==> bytes[i] != 0,
        nul_at(bytes) < bytes.len() ==> bytes[nul_at(bytes)] == 0,
    decreases bytes.len(),
{
    if bytes.len() > 0 && bytes[0] != 0 {
        let rest = bytes.skip(1);
        lemma_nul_at(rest);
        assert forall|i: int| 0 <= i < nul_at(bytes) implies bytes[i] != 0 by {
            if i > 0 {
                assert(rest[i - 1] == bytes[i]);
            }
        }
    }
}

proof fn lemma_nul_at_is(bytes: Seq<u8>, n: int)
    requires
        0 <= n <= bytes.len(),
        forall|i: int| 0 <= i < n ==> bytes[i] != 0,
        n < bytes.len() ==> bytes[n] == 0,
    ensures
        nul_at(bytes) == n,
{
    lemma_nul_at(bytes);
    let m = nul_at(bytes);
    if m < n {
        assert(bytes[m] != 0);
    }
    if n < m {
        assert(bytes[n] == 0);
    }
}

/// The `k`th of the NUL-separated fields, as text; `None` when it is missing
/// or empty.
fn string_field(strings: &[u8], k: usize) -> (r: Option<String>)
    ensures
        text_view(r) == metadata_text(strings@, k as nat),
        plain_field(strings@, k as nat, text_view(r)),
{
    let mut from: usize = 0;
    let mut left: usize = k;
    proof {
        assert(strings@.skip(0) =~= strings@);
    }
    loop
        invariant
            from <= strings@.len(),
            left <= k,
            nul_field(strings@, k as nat) == nul_field(strings@.skip(from as int), left as nat),
        decreases left,
    {
        let ghost rest = strings@.skip(from as int);
        let mut end: usize = from;
        while end < strings.len() && strings[end] != 0
            invariant
                from <= end <= strings@.len(),
                forall|i: int| from <= i < end ==> strings@[i] != 0,
            decreases strings@.len() - end,
        {
            end = end + 1;
        }
        proof {
            assert forall|i: int| 0 <= i < end - from implies rest[i] != 0 by {
                assert(rest[i] == strings@[from + i]);
            }
            lemma_nul_at_is(rest, end - from);
        }
        if left == 0 {
            let field: &[u8] = slice_subrange(strings, from, end);
            proof {
                assert(field@ =~= rest.take(end - from));
            }
            let text: String = text_lossy(field);
            if text.as_str().is_empty() {
                return None;
            }
            return Some(text);
        }
        if end >= strings.len() {
            return None;
        }
        proof {
            assert(rest.skip(end - from + 1) =~= strings@.skip(end + 1));
        }
        from = end + 1;
        left = left - 1;
    }
}

/// Decode a metadata payload. The leading bytes are not text and contain NULs
/// of their own, so the strings are split behind them.
pub fn decode_metadata(payload: &[u8]) -> (r: Metadata)
    ensures
        r@ == metadata_of(payload@),
        payload@.len() >= op::METADATA_SKIP ==> {
            let strings = payload@.skip(op::METADATA_SKIP as int);
            &&& plain_field(strings, 0, text_view(r.name))
            &&& plain_field(strings, 1, text_view(r.model))
            &&& plain_field(strings, 2, text_view(r.manufacturer))
            &&& plain_field(strings, 3, text_view(r.serial))
            &&& plain_field(strings, 4, text_view(r.firmware))
        },
{
    if payload.len() < op::METADATA_SKIP {
        return Metadata::default();
    }
    let strings: &[u8] = slice_subrange(payload, op::METADATA_SKIP, payload.len());
    proof {
        assert(strings@ =~= payload@.skip(op::METADATA_SKIP as int));
    }
    Metadata {
        name: string_field(strings, 0),
        model: string_field(strings, 1),
        manufacturer: string_field(strings, 2),
        serial: string_field(strings, 3),
        firmware: string_field(strings, 4),
    }
}

// ---------------------------------------------------------------------------
// Encoders
// ---------------------------------------------------------------------------

/// Which set-features packet to send. The `0xd7` form is the default; the
/// `0x0e` form is reached by configuration or by automatic fallback when a
/// session produced no battery packet.
#[derive(Debug, Clone, Copy, PartialEq, Eq, Structural)]
pub enum FeaturesVariant {
    /// Default form, selector `d7`.
    D7,
    /// Alternate form, selector `0e`.
    Alt,
    /// Full form, selector `ff`.
    Ff,
}

impl Default for FeaturesVariant {
    fn default() -> (r: Self)
        ensures
            r == FeaturesVariant::D7,
    {
        FeaturesVariant::D7
    }
}

/// The opening handshake: `00 00 04 00 01 00 02 00` and eight zero bytes.
pub open spec fn handshake_bytes() -> Seq<u8> {
    seq![0u8, 0, 4, 0, 1, 0, 2, 0, 0, 0, 0, 0, 0, 0, 0, 0]
}

/// The opening handshake.
pub fn encode_handshake() -> (r: Vec<u8>)
    ensures
        r@ == handshake_bytes(),
{
    vec![0x00, 0x00, 0x04, 0x00, 0x01, 0x00, 0x02, 0x00, 0, 0, 0, 0, 0, 0, 0, 0]
}

/// The selector byte of a set-features packet.
pub open spec fn features_selector(variant: FeaturesVariant) -> u8 {
    match variant {
        FeaturesVariant::D7 => 0xd7,
        FeaturesVariant::Alt => 0x0e,
        FeaturesVariant::Ff => 0xff,
    }
}

/// Prefix, opcode, selector and seven zero bytes. A shorter write is silently
/// ignored and the accessory never starts notifying.
pub open spec fn features_bytes(variant: FeaturesVariant) -> Seq<u8> {
    seq![4u8, 0, 4, 0, 0x4d, 0, features_selector(variant), 0, 0, 0, 0, 0, 0, 0]
}

/// Feature negotiation, in the requested variant.
pub fn encode_set_features(variant: FeaturesVariant) -> (r: Vec<u8>)
    ensures
        r@ == features_bytes(variant),
        r@.len() == 14,
{
    let selector: u8 = match variant {
        FeaturesVariant::D7 => 0xd7,
        FeaturesVariant::Alt => 0x0e,
        FeaturesVariant::Ff => 0xff,
    };
    vec![0x04, 0x00, 0x04, 0x00, 0x4d, 0x00, selector, 0, 0, 0, 0, 0, 0, 0]
}

/// Subscribe to notifications of every class.
pub fn encode_request_notifications() -> (r: Vec<u8>)
    ensures
        r@ == seq![4u8, 0, 4, 0, 0x0f, 0, 0xff, 0xff, 0xff, 0xff, 0xff],
{
    vec![0x04, 0x00, 0x04, 0x00, 0x0f, 0x00, 0xff, 0xff, 0xff, 0xff, 0xff]
}

/// The narrower first subscribe sent ahead of the full one on the alternate
/// ordering.
pub fn encode_request_notifications_alt() -> (r: Vec<u8>)
    ensures
        r@ == seq![4u8, 0, 4, 0, 0x0f, 0, 0xff, 0xff, 0xef, 0xff],
{
    vec![0x04, 0x00, 0x04, 0x00, 0x0f, 0x00, 0xff, 0xff, 0xef, 0xff]
}

/// Prefix and opcode.
pub open spec fn header_bytes(opcode: u16) -> Seq<u8> {
    op::PREFIX@ + le_bytes(opcode as int)
}

/// A control write: header, identifier and data padded to four bytes.
pub open spec fn control_bytes(id: u8, data: Seq<u8>) -> Seq<u8> {
    header_bytes(op::OP_CONTROL).push(id) + data + Seq::new((4 - data.len()) as nat, |i: int| 0u8)
}

fn header(opcode: u16) -> (r: Vec<u8>)
    ensures
        r@ == header_bytes(opcode),
{
    let out: Vec<u8> = vec![
        op::PREFIX[0],
        op::PREFIX[1],
        op::PREFIX[2],
        op::PREFIX[3],
        (opcode % 256) as u8,
        (opcode / 256) as u8,
    ];
    proof {
        assert(out@ =~= header_bytes(opcode));
    }
    out
}

/// Appends a slice.
fn push_all(out: &mut Vec<u8>, bytes: &[u8])
    ensures
        final(out)@ == old(out)@ + bytes@,
{
    let ghost before = out@;
    let mut i: usize = 0;
    while i < bytes.len()
        invariant
            i <= bytes@.len(),
            out@ == before + bytes@.take(i as int),
        decreases bytes@.len() - i,
    {
        out.push(bytes[i]);
        proof {
            assert(before + bytes@.take(i as int + 1) =~= (before + bytes@.take(i as int)).push(
                bytes@[i as int],
            ));
        }
        i = i + 1;
    }
    proof {
        assert(bytes@.take(bytes@.len() as int) =~= bytes@);
    }
}

/// A control write of up to four data bytes.
pub fn encode_control_data(id: u8, data: &[u8]) -> (r: Vec<u8>)
    requires
        data@.len() <= 4,
    ensures
        r@ == control_bytes(id, data@),
        r@.len() == 11,
{
    let mut v: Vec<u8> = header(op::OP_CONTROL);
    v.push(id);
    push_all(&mut v, data);
    let ghost head = v@;
    let mut pad: usize = data.len();
    while pad < 4
        invariant
            data@.len() <= pad <= 4,
            v@ == head + Seq::new((pad - data@.len()) as nat, |i: int| 0u8),
        decreases 4 - pad,
    {
        v.push(0x00);
        proof {
            assert(v@ =~= head + Seq::new((pad + 1 - data@.len()) as nat, |i: int| 0u8));
        }
        pad = pad + 1;
    }
    proof {
        assert(v@ =~= control_bytes(id, data@));
    }
    v
}

/// A control write of one byte.
pub fn encode_control(id: u8, value: u8) -> (r: Vec<u8>)
    ensures
        r@ == control_bytes(id, seq![value]),
{
    let data: [u8; 1] = [value];
    proof {
        assert(data@ =~= seq![value]);
    }
    encode_control_data(id, data.as_slice())
}

/// Claim (`true`) or give up (`false`) the accessory's audio connection.
pub fn encode_owns_connection(owns: bool) -> (r: Vec<u8>)
    ensures
        r@ == control_bytes(op::CTL_OWNS_CONNECTION, seq![if owns { 1u8 } else { 0u8 }]),
{
    encode_control(
        op::CTL_OWNS_CONNECTION,
        if owns {
            1
        } else {
            0
        },
    )
}

// Smart routing. Bodies are OPACK dictionaries preceded by a constant 0x01.

/// `PlayingApp` value sent when no app is known.
pub const PLAYING_APP_UNKNOWN: &'static str = "NA";

/// `btName` announced to other hosts unless configured.
pub const DEFAULT_BT_NAME: &'static str = "Mac";

/// Longest string that fits the one-byte OPACK tag `0x40 + length`.
pub const OPACK_SHORT_STRING: usize = 32;

/// Key whose presence in a relayed body asks this host to yield.
pub const OWNERSHIP_TO_FALSE: &'static str = "audioRoutingSetOwnershipToFalse";

const OPACK_TRUE: u8 = 0x01;

/// The last character boundary at or before `end`.
pub open spec fn boundary_at(bytes: Seq<u8>, end: int) -> int
    decreases end,
{
    if end <= 0 || is_char_boundary(bytes, end) {
        end
    } else {
        boundary_at(bytes, end - 1)
    }
}

/// How much of a string fits an OPACK short string: at most
/// [`OPACK_SHORT_STRING`] bytes, cut at a character boundary.
pub open spec fn short_len(bytes: Seq<u8>) -> int {
    boundary_at(
        bytes,
        if bytes.len() <= OPACK_SHORT_STRING {
            bytes.len() as int
        } else {
            OPACK_SHORT_STRING as int
        },
    )
}

/// An OPACK short string: its tag and its bytes.
pub open spec fn opack_text(text: Seq<char>) -> Seq<u8> {
    let bytes = encode_utf8(text);
    seq![(0x40 + short_len(bytes)) as u8] + bytes.take(short_len(bytes))
}

proof fn lemma_boundary_at(bytes: Seq<u8>, end: int)
    requires
        0 <= end <= bytes.len(),
        valid_utf8(bytes),
    ensures
        0 <= boundary_at(bytes, end) <= end,
        is_char_boundary(bytes, boundary_at(bytes, end)),
        forall|i: int| boundary_at(bytes, end) < i <= end ==> !is_char_boundary(bytes, i),
    decreases end,
{
    is_char_boundary_start_end_of_seq(bytes);
    if end > 0 && !is_char_boundary(bytes, end) {
        lemma_boundary_at(bytes, end - 1);
    }
}

/// A short string holds at most [`OPACK_SHORT_STRING`] bytes of whole
/// characters: as many as fit, and all of them when they fit.
pub proof fn short_strings_keep_whole_characters(text: Seq<char>)
    ensures
        ({
            let bytes = encode_utf8(text);
            let n = short_len(bytes);
            &&& 0 <= n <= OPACK_SHORT_STRING
            &&& opack_text(text).len() == 1 + n
            &&& valid_utf8(bytes.take(n))
            &&& bytes.len() <= OPACK_SHORT_STRING ==> n == bytes.len()
            &&& forall|i: int| n < i <= OPACK_SHORT_STRING && i <= bytes.len() ==> !is_char_boundary(
                bytes,
                i,
            )
        }),
{
    let bytes = encode_utf8(text);
    encode_utf8_valid_utf8(text);
    is_char_boundary_start_end_of_seq(bytes);
    let end = if bytes.len() <= OPACK_SHORT_STRING {
        bytes.len() as int
    } else {
        OPACK_SHORT_STRING as int
    };
    lemma_boundary_at(bytes, end);
    valid_utf8_split(bytes, short_len(bytes));
    assert(bytes.take(short_len(bytes)) =~= bytes.subrange(0, short_len(bytes)));
}

/// Appends an OPACK short string.
pub fn opack_str(out: &mut Vec<u8>, s: &str)
    ensures
        final(out)@ == old(out)@ + opack_text(s@),
{
    let bytes: &[u8] = s.as_bytes();
    let ghost all = encode_utf8(s@);
    let start: usize = if bytes.len() <= OPACK_SHORT_STRING {
        bytes.len()
    } else {
        OPACK_SHORT_STRING
    };
    let mut end: usize = start;
    proof {
        encode_utf8_valid_utf8(s@);
        is_char_boundary_start_end_of_seq(all);
    }
    while !s.is_char_boundary(end)
        invariant
            end <= start <= bytes@.len(),
            start <= OPACK_SHORT_STRING,
            bytes@ == all,
            s.spec_bytes() == all,
            is_char_boundary(all, 0),
            boundary_at(all, end as int) == boundary_at(all, start as int),
        decreases end,
    {
        end = end - 1;
    }
    let ghost before = out@;
    out.push(0x40 + end as u8);
    let piece: &[u8] = slice_subrange(bytes, 0, end);
    push_all(out, piece);
    proof {
        assert(piece@ =~= all.take(end as int));
        assert(out@ =~= before + opack_text(s@));
    }
}

/// An OPACK unsigned integer.
pub open spec fn opack_number(v: u16) -> Seq<u8> {
    if v <= 39 {
        seq![(0x08 + v) as u8]
    } else if v <= 127 {
        seq![0x30u8, v as u8]
    } else {
        seq![0x31u8] + le_bytes(v as int)
    }
}

/// Appends an OPACK unsigned integer.
pub fn opack_uint(out: &mut Vec<u8>, v: u16)
    ensures
        final(out)@ == old(out)@ + opack_number(v),
{
    let ghost before = out@;
    if v <= 39 {
        out.push(0x08 + v as u8);
    } else if v <= 127 {
        out.push(0x30);
        out.push(v as u8);
    } else {
        out.push(0x31);
        out.push((v % 256) as u8);
        out.push((v / 256) as u8);
    }
    proof {
        assert(out@ =~= before + opack_number(v));
    }
}

/// The start of a body holding an OPACK dictionary of `entries` pairs.
pub open spec fn body_start(entries: u8) -> Seq<u8> {
    seq![0x01u8, (0xE0 + entries) as u8]
}

/// Start a body holding an OPACK dictionary of `entries` pairs.
pub fn opack_body(entries: u8) -> (r: Vec<u8>)
    requires
        entries <= 0x1f,
    ensures
        r@ == body_start(entries),
{
    vec![0x01, 0xE0 + entries]
}

/// The length field of a smart-routing body, as large as it can be.
pub open spec fn declared_len(len: int) -> int {
    if len <= 0xffff {
        len
    } else {
        0xffff
    }
}

/// A smart-routing message: header, address least significant octet first,
/// length and body.
pub open spec fn routing_bytes(opcode: u16, address: Seq<u8>, body: Seq<u8>) -> Seq<u8> {
    header_bytes(opcode) + address.reverse() + le_bytes(declared_len(body.len() as int)) + body
}

/// Frame an OPACK body as a message the accessory relays to `target`.
pub fn encode_smart_routing(target: Address, body: &[u8]) -> (r: Vec<u8>)
    ensures
        r@ == routing_bytes(op::OP_SMART_ROUTING, target.0@, body@),
{
    let mut v: Vec<u8> = header(op::OP_SMART_ROUTING);
    let ghost head = v@;
    v.push(target.0[5]);
    v.push(target.0[4]);
    v.push(target.0[3]);
    v.push(target.0[2]);
    v.push(target.0[1]);
    v.push(target.0[0]);
    let len: usize = if body.len() <= 0xffff {
        body.len()
    } else {
        0xffff
    };
    v.push((len % 256) as u8);
    v.push((len / 256) as u8);
    proof {
        assert(v@ =~= head + target.0@.reverse() + le_bytes(declared_len(body@.len() as int)));
    }
    push_all(&mut v, body);
    v
}

/// The body asking a host to give up the audio route. The last value refers
/// back to the sixth object, the score 301.
pub open spec fn hijack_body() -> Seq<u8> {
    hijack_head() + opack_text(OWNERSHIP_TO_FALSE@) + seq![0x01u8] + opack_text("remotescore"@)
        + seq![0xA5u8]
}

/// The hijack body up to the key that asks for ownership.
pub open spec fn hijack_head() -> Seq<u8> {
    body_start(5) + opack_text("localscore"@) + opack_number(100) + opack_text("reason"@)
        + opack_text("Hijackv2"@) + opack_text("audioRoutingScore"@) + opack_number(301)
}

/// Ask `target` to give up the audio route (`reason = Hijackv2`).
pub fn encode_hijack_v2(target: Address) -> (r: Vec<u8>)
    ensures
        r@ == routing_bytes(op::OP_SMART_ROUTING, target.0@, hijack_body()),
{
    let mut b: Vec<u8> = opack_body(5);
    opack_str(&mut b, "localscore");
    opack_uint(&mut b, 100);
    opack_str(&mut b, "reason");
    opack_str(&mut b, "Hijackv2");
    opack_str(&mut b, "audioRoutingScore");
    opack_uint(&mut b, 301);
    opack_str(&mut b, OWNERSHIP_TO_FALSE);
    let ghost head = b@;
    b.push(OPACK_TRUE);
    proof {
        assert(b@ =~= head + seq![0x01u8]);
    }
    opack_str(&mut b, "remotescore");
    let ghost most = b@;
    b.push(0xA5);
    proof {
        assert(b@ =~= most + seq![0xA5u8]);
    }
    encode_smart_routing(target, b.as_slice())
}

/// The body telling what this host plays and whether it is streaming.
pub open spec fn media_info_body(
    local: Address,
    playing_app: Seq<char>,
    streaming: bool,
    bt_name: Seq<char>,
) -> Seq<u8> {
    body_start(5) + opack_text("PlayingApp"@) + opack_text(playing_app) + opack_text(
        "HostStreamingState"@,
    ) + opack_text(
        if streaming {
            "YES"@
        } else {
            "NO"@
        },
    ) + opack_text("btAddress"@) + opack_text(local.text()) + opack_text("btName"@) + opack_text(
        bt_name,
    ) + opack_text("otherDeviceAudioCategory"@) + opack_number(301)
}

/// Tell `target` what this host is playing and whether it is streaming.
pub fn encode_media_info(
    target: Address,
    local: Address,
    playing_app: &str,
    streaming: bool,
    bt_name: &str,
) -> (r: Vec<u8>)
    ensures
        r@ == routing_bytes(
            op::OP_SMART_ROUTING,
            target.0@,
            media_info_body(local, playing_app@, streaming, bt_name@),
        ),
{
    let mut b: Vec<u8> = opack_body(5);
    opack_str(&mut b, "PlayingApp");
    opack_str(&mut b, playing_app);
    opack_str(&mut b, "HostStreamingState");
    opack_str(
        &mut b,
        if streaming {
            "YES"
        } else {
            "NO"
        },
    );
    opack_str(&mut b, "btAddress");
    opack_str(&mut b, local.to_string().as_str());
    opack_str(&mut b, "btName");
    opack_str(&mut b, bt_name);
    opack_str(&mut b, "otherDeviceAudioCategory");
    opack_uint(&mut b, 301);
    encode_smart_routing(target, b.as_slice())
}

/// The body for a host that just joined: idle, not streaming.
pub open spec fn new_device_body(local: Address, bt_name: Seq<char>) -> Seq<u8> {
    body_start(5) + opack_text("playingApp"@) + opack_text(PLAYING_APP_UNKNOWN@) + opack_text(
        "hostStreamingState"@,
    ) + opack_text("NO"@) + opack_text("btAddress"@) + opack_text(local.text()) + opack_text(
        "btName"@,
    ) + opack_text(bt_name) + opack_text("otherDeviceAudioCategory"@) + opack_number(100)
}

/// Media information for a host that just joined (idle, not streaming).
pub fn encode_media_info_new_device(target: Address, local: Address, bt_name: &str) -> (r: Vec<u8>)
    ensures
        r@ == routing_bytes(
            op::OP_SMART_ROUTING,
            target.0@,
            new_device_body(local, bt_name@),
        ),
{
    let mut b: Vec<u8> = opack_body(5);
    opack_str(&mut b, "playingApp");
    opack_str(&mut b, PLAYING_APP_UNKNOWN);
    opack_str(&mut b, "hostStreamingState");
    opack_str(&mut b, "NO");
    opack_str(&mut b, "btAddress");
    opack_str(&mut b, local.to_string().as_str());
    opack_str(&mut b, "btName");
    opack_str(&mut b, bt_name);
    opack_str(&mut b, "otherDeviceAudioCategory");
    opack_uint(&mut b, 100);
    encode_smart_routing(target, b.as_slice())
}

/// The body introducing this host.
pub open spec fn new_tipi_body(local: Address, bt_name: Seq<char>) -> Seq<u8> {
    body_start(5) + opack_text("idleTime"@) + opack_number(0) + opack_text("newTipi"@)
        + seq![0x01u8] + opack_text("btAddress"@) + opack_text(local.text()) + opack_text(
        "btName"@,
    ) + opack_text(bt_name) + opack_text("nearbyAudioScore"@) + opack_number(6)
}

/// Introduce this host to a host that just joined (`newTipi`).
pub fn encode_new_tipi(target: Address, local: Address, bt_name: &str) -> (r: Vec<u8>)
    ensures
        r@ == routing_bytes(op::OP_SMART_ROUTING, target.0@, new_tipi_body(local, bt_name@)),
{
    let mut b: Vec<u8> = opack_body(5);
    opack_str(&mut b, "idleTime");
    opack_uint(&mut b, 0);
    opack_str(&mut b, "newTipi");
    let ghost head = b@;
    b.push(OPACK_TRUE);
    proof {
        assert(b@ =~= head + seq![0x01u8]);
    }
    opack_str(&mut b, "btAddress");
    opack_str(&mut b, local.to_string().as_str());
    opack_str(&mut b, "btName");
    opack_str(&mut b, bt_name);
    opack_str(&mut b, "nearbyAudioScore");
    opack_uint(&mut b, 6);
    encode_smart_routing(target, b.as_slice())
}

fn matches_at(whole: &[u8], part: &[u8], at: usize) -> (r: bool)
    requires
        at + part@.len() <= whole@.len(),
    ensures
        r == occurs_at(whole@, part@, at as int),
{
    let total: usize = whole.len();
    let mut i: usize = 0;
    while i < part.len()
        invariant
            i <= part@.len(),
            total == whole@.len(),
            at + part@.len() <= total,
            forall|k: int| 0 <= k < i ==> whole@[at + k] == part@[k],
        decreases part@.len() - i,
    {
        if whole[at + i] != part[i] {
            proof {
                let piece = whole@.subrange(at as int, at + part@.len());
                assert(piece[i as int] == whole@[at + i]);
            }
            return false;
        }
        i = i + 1;
    }
    proof {
        assert(whole@.subrange(at as int, at + part@.len()) =~= part@);
    }
    true
}

/// Whether a relayed smart-routing body asks this host to give up ownership:
/// the key occurs in it. The body is not parsed.
pub fn smart_routing_requests_yield(body: &[u8]) -> (r: bool)
    ensures
        r == occurs_in(body@, encode_utf8(OWNERSHIP_TO_FALSE@)),
{
    let key: &[u8] = OWNERSHIP_TO_FALSE.as_bytes();
    if body.len() < key.len() {
        proof {
            if occurs_in(body@, key@) {
                let at = choose|at: int| occurs_at(body@, key@, at);
                assert(occurs_at(body@, key@, at));
            }
        }
        return false;
    }
    let last: usize = body.len() - key.len();
    let mut at: usize = 0;
    while at <= last
        invariant
            last == body@.len() - key@.len(),
            at <= last + 1,
            body@.len() <= usize::MAX,
            key@ == encode_utf8(OWNERSHIP_TO_FALSE@),
            forall|k: int| 0 <= k < at ==> !occurs_at(body@, key@, k),
        decreases last + 1 - at,
    {
        if matches_at(body, key, at) {
            return true;
        }
        if at == last {
            proof {
                if occurs_in(body@, key@) {
                    let k = choose|k: int| occurs_at(body@, key@, k);
                    assert(k <= last);
                }
            }
            return false;
        }
        at = at + 1;
    }
    false
}

/// Set the noise control mode.
pub fn encode_set_noise_control(mode: NoiseControlMode) -> (r: Vec<u8>)
    ensures
        r@ == control_bytes(op::CTL_NOISE_CONTROL, seq![mode.wire()]),
{
    encode_control(op::CTL_NOISE_CONTROL, mode.to_wire())
}

/// Turn conversational awareness on or off.
pub fn encode_set_conversational_awareness(on: bool) -> (r: Vec<u8>)
    ensures
        r@ == control_bytes(op::CTL_CONV_AWARENESS, seq![if on { 1u8 } else { 2u8 }]),
{
    encode_control(
        op::CTL_CONV_AWARENESS,
        if on {
            0x01
        } else {
            0x02
        },
    )
}

/// A level clamped to 0-100.
pub open spec fn clamped_level(level: u8) -> u8 {
    if level <= 100 {
        level
    } else {
        100
    }
}

/// Set the adaptive transparency level; the value is clamped to 0-100.
pub fn encode_set_adaptive_level(level: u8) -> (r: Vec<u8>)
    ensures
        r@ == control_bytes(op::CTL_ADAPTIVE_LEVEL, seq![clamped_level(level)]),
{
    encode_control(
        op::CTL_ADAPTIVE_LEVEL,
        if level <= 100 {
            level
        } else {
            100
        },
    )
}

/// The control identifier and the data bytes of a setting.
pub open spec fn setting_wire(setting: SettingModel) -> (u8, Seq<u8>) {
    match setting {
        SettingModel::Microphone(mode) => (
            op::CTL_MICROPHONE,
            seq![
                match mode {
                    MicrophoneMode::Auto => 0u8,
                    MicrophoneMode::Right => 1,
                    MicrophoneMode::Left => 2,
                },
            ],
        ),
        SettingModel::PressSpeed(speed) => (
            op::CTL_PRESS_SPEED,
            seq![
                match speed {
                    PressSpeed::Default => 0u8,
                    PressSpeed::Slower => 1,
                    PressSpeed::Slowest => 2,
                },
            ],
        ),
        SettingModel::HoldDuration(duration) => (
            op::CTL_HOLD_DURATION,
            seq![
                match duration {
                    HoldDuration::Default => 0u8,
                    HoldDuration::Shorter => 1,
                    HoldDuration::Shortest => 2,
                },
            ],
        ),
        SettingModel::ListeningModeCycle(modes) => (
            op::CTL_LISTENING_MODE_CYCLE,
            seq![mask_of_modes(modes)],
        ),
        SettingModel::CallControls(controls) => (
            op::CTL_CALL_CONTROLS,
            match controls {
                CallControls::MuteOnceHangupTwice => seq![0u8, 3],
                CallControls::HangupOnceMuteTwice => seq![0u8, 2],
            },
        ),
        SettingModel::PersonalizedVolume(on) => (
            op::CTL_PERSONALIZED_VOLUME,
            seq![if on { 1u8 } else { 2u8 }],
        ),
    }
}

fn lists_mode(modes: &Vec<NoiseControlMode>, mode: NoiseControlMode) -> (r: bool)
    ensures
        r == modes@.contains(mode),
{
    let mut i: usize = 0;
    while i < modes.len()
        invariant
            i <= modes@.len(),
            forall|k: int| 0 <= k < i ==> modes@[k] != mode,
        decreases modes@.len() - i,
    {
        if modes[i] == mode {
            assert(modes@[i as int] == mode);
            return true;
        }
        i = i + 1;
    }
    false
}

fn mask_from_modes(modes: &Vec<NoiseControlMode>) -> (r: u8)
    ensures
        r == mask_of_modes(modes@),
{
    let off: u8 = if lists_mode(modes, NoiseControlMode::Off) {
        1
    } else {
        0
    };
    let anc: u8 = if lists_mode(modes, NoiseControlMode::Anc) {
        2
    } else {
        0
    };
    let transparency: u8 = if lists_mode(modes, NoiseControlMode::Transparency) {
        4
    } else {
        0
    };
    let adaptive: u8 = if lists_mode(modes, NoiseControlMode::Adaptive) {
        8
    } else {
        0
    };
    off + anc + transparency + adaptive
}

/// Encode one typed setting as a fixed-width control command. A setting that
/// may not be written is refused with the reason.
pub fn encode_set_setting(setting: &SettingCommand) -> (r: Result<Vec<u8>, String>)
    ensures
        match r {
            Ok(packet) => setting@.writable() && packet@ == control_bytes(
                setting_wire(setting@).0,
                setting_wire(setting@).1,
            ),
            Err(e) => !setting@.writable() && e@ == setting@.refusal(),
        },
{
    match setting.validate() {
        Ok(()) => {},
        Err(e) => {
            return Err(e);
        },
    }
    let packet: Vec<u8> = match setting {
        SettingCommand::Microphone(mode) => encode_control(
            op::CTL_MICROPHONE,
            match mode {
                MicrophoneMode::Auto => 0x00,
                MicrophoneMode::Right => 0x01,
                MicrophoneMode::Left => 0x02,
            },
        ),
        SettingCommand::PressSpeed(speed) => encode_control(
            op::CTL_PRESS_SPEED,
            match speed {
                PressSpeed::Default => 0x00,
                PressSpeed::Slower => 0x01,
                PressSpeed::Slowest => 0x02,
            },
        ),
        SettingCommand::HoldDuration(duration) => encode_control(
            op::CTL_HOLD_DURATION,
            match duration {
                HoldDuration::Default => 0x00,
                HoldDuration::Shorter => 0x01,
                HoldDuration::Shortest => 0x02,
            },
        ),
        SettingCommand::ListeningModeCycle(modes) => encode_control(
            op::CTL_LISTENING_MODE_CYCLE,
            mask_from_modes(modes),
        ),
        SettingCommand::CallControls(controls) => {
            let data: [u8; 2] = match controls {
                CallControls::MuteOnceHangupTwice => [0x00, 0x03],
                CallControls::HangupOnceMuteTwice => [0x00, 0x02],
            };
            proof {
                assert(data@ =~= setting_wire(setting@).1);
            }
            encode_control_data(op::CTL_CALL_CONTROLS, data.as_slice())
        },
        SettingCommand::PersonalizedVolume(on) => encode_control(
            op::CTL_PERSONALIZED_VOLUME,
            if *on {
                0x01
            } else {
                0x02
            },
        ),
    };
    Ok(packet)
}

/// A rename request: header, a constant, the length in bytes, and the name.
pub open spec fn rename_bytes(name: Seq<char>) -> Seq<u8> {
    header_bytes(op::OP_RENAME) + seq![0x01u8, encode_utf8(name).len() as u8, 0x00]
        + encode_utf8(name)
}

/// Encode a rename request. Success only means the packet can be sent; the
/// name remains unconfirmed until later metadata arrives.
pub fn encode_rename(name: &str) -> (r: Result<Vec<u8>, String>)
    ensures
        match r {
            Ok(packet) => valid_name(name@) && packet@ == rename_bytes(name@),
            Err(e) => !valid_name(name@) && e@ == name_refusal(name@),
        },
{
    match validate_name(name) {
        Ok(()) => {},
        Err(e) => {
            return Err(e);
        },
    }
    let bytes: &[u8] = name.as_bytes();
    let mut packet: Vec<u8> = header(op::OP_RENAME);
    let ghost head = packet@;
    packet.push(0x01);
    packet.push(bytes.len() as u8);
    packet.push(0x00);
    proof {
        assert(packet@ =~= head + seq![0x01u8, encode_utf8(name@).len() as u8, 0x00]);
    }
    push_all(&mut packet, bytes);
    Ok(packet)
}

// ---------------------------------------------------------------------------
// What holds across encoding and decoding
// ---------------------------------------------------------------------------

/// Decoding fails only on a packet that is too short for what it claims to be.
pub proof fn decoding_fails_only_when_truncated(buf: Seq<u8>)
    ensures
        packet_of(buf) is Err ==> buf.len() < op::HEADER_LEN || (buf.take(4) == op::PREFIX@ && {
            let opcode = le16(buf[4], buf[5]);
            let payload = buf.skip(op::HEADER_LEN as int);
            ||| opcode == op::OP_BATTERY && (payload.len() < 1 || payload.len() < 1 + payload[0]
                * 5)
            ||| opcode == op::OP_EAR_DETECTION && payload.len() < 2
            ||| opcode == op::OP_CONTROL && (payload.len() < 2 || (payload.len() < 5
                && typed_setting(payload[0])))
            ||| opcode == op::OP_CONV_AWARENESS_EVENT && payload.len() < 1
            ||| opcode == op::OP_ADDRESS_REPORT && payload.len() < 8
            ||| opcode == op::OP_AUDIO_SOURCE && payload.len() < 7
            ||| opcode == op::OP_CONNECTED_DEVICES && payload.len() < 3
            ||| opcode == op::OP_SMART_ROUTING_RELAY && payload.len() < 8
        }),
{
}

proof fn lemma_control_frame(id: u8, data: Seq<u8>)
    requires
        1 <= data.len() <= 4,
    ensures
        control_bytes(id, data).len() == 11,
        packet_of(control_bytes(id, data)) == (match control_of(
            control_bytes(id, data).skip(op::HEADER_LEN as int),
        ) {
            Ok(c) => Ok(PacketModel::Control(c)),
            Err(e) => Err(e),
        }),
        control_bytes(id, data).skip(op::HEADER_LEN as int).len() == 5,
        control_bytes(id, data).skip(op::HEADER_LEN as int)[0] == id,
        control_bytes(id, data).skip(op::HEADER_LEN as int)[1] == data[0],
        control_bytes(id, data).skip(op::HEADER_LEN as int)[2] == (if data.len() > 1 {
            data[1]
        } else {
            0
        }),
        data.len() <= 2 ==> control_bytes(id, data).skip(op::HEADER_LEN as int)[3] == 0
            && control_bytes(id, data).skip(op::HEADER_LEN as int)[4] == 0,
{
    let frame = control_bytes(id, data);
    assert(frame.take(4) =~= op::PREFIX@);
    assert(frame.take(4)[0] != op::ACK_PREFIX@[0]);
    assert(frame[4] == 9 && frame[5] == 0);
}

/// Each control write is read back from the wire as what was written.
pub proof fn control_writes_read_back(mode: NoiseControlMode, on: bool, level: u8)
    ensures
        packet_of(control_bytes(op::CTL_NOISE_CONTROL, seq![mode.wire()])) == Ok::<
            PacketModel,
            DecodeError,
        >(PacketModel::Control(ControlModel::NoiseControl(mode))),
        packet_of(control_bytes(op::CTL_CONV_AWARENESS, seq![if on { 1u8 } else { 2u8 }])) == Ok::<
            PacketModel,
            DecodeError,
        >(PacketModel::Control(ControlModel::ConversationalAwareness(on))),
        packet_of(control_bytes(op::CTL_ADAPTIVE_LEVEL, seq![clamped_level(level)])) == Ok::<
            PacketModel,
            DecodeError,
        >(PacketModel::Control(ControlModel::AdaptiveLevel(clamped_level(level)))),
        packet_of(control_bytes(op::CTL_OWNS_CONNECTION, seq![if on { 1u8 } else { 0u8 }])) == Ok::<
            PacketModel,
            DecodeError,
        >(PacketModel::Control(ControlModel::OwnsConnection(on))),
{
    let nc = seq![mode.wire()];
    let ca = seq![if on { 1u8 } else { 2u8 }];
    let al = seq![clamped_level(level)];
    let oc = seq![if on { 1u8 } else { 0u8 }];
    lemma_control_frame(op::CTL_NOISE_CONTROL, nc);
    lemma_control_frame(op::CTL_CONV_AWARENESS, ca);
    lemma_control_frame(op::CTL_ADAPTIVE_LEVEL, al);
    lemma_control_frame(op::CTL_OWNS_CONNECTION, oc);
}

/// A setting as the accessory reports it: a listening-mode cycle comes back in
/// bit order, everything else as it is.
pub open spec fn as_reported(setting: SettingModel) -> SettingModel {
    match setting {
        SettingModel::ListeningModeCycle(modes) => SettingModel::ListeningModeCycle(
            modes_of_mask(mask_of_modes(modes)),
        ),
        other => other,
    }
}

/// A mask made from a list of modes has one mode for each that was listed.
pub proof fn masks_keep_the_modes(modes: Seq<NoiseControlMode>, mode: NoiseControlMode)
    ensures
        modes_of_mask(mask_of_modes(modes)).contains(mode) <==> modes.contains(mode),
        modes_of_mask(mask_of_modes(modes)).no_duplicates(),
        modes.len() > 0 ==> 1 <= mask_of_modes(modes) <= 0x0f,
{
    let mask = mask_of_modes(modes);
    let out = modes_of_mask(mask);
    let a = if modes.contains(NoiseControlMode::Off) { 1int } else { 0 };
    let b = if modes.contains(NoiseControlMode::Anc) { 1int } else { 0 };
    let c = if modes.contains(NoiseControlMode::Transparency) { 1int } else { 0 };
    let d = if modes.contains(NoiseControlMode::Adaptive) { 1int } else { 0 };
    assert(mask == a + 2 * b + 4 * c + 8 * d);
    assert(mask % 2 == a && (mask / 2) % 2 == b && (mask / 4) % 2 == c && (mask / 8) % 2 == d);
    let s1 = if a == 1 { seq![NoiseControlMode::Off] } else { Seq::<NoiseControlMode>::empty() };
    let s2 = if b == 1 { s1.push(NoiseControlMode::Anc) } else { s1 };
    let s3 = if c == 1 { s2.push(NoiseControlMode::Transparency) } else { s2 };
    let s4 = if d == 1 { s3.push(NoiseControlMode::Adaptive) } else { s3 };
    assert(out == s4);
    if modes.contains(NoiseControlMode::Off) {
        assert(s4[0] == NoiseControlMode::Off);
    }
    if modes.contains(NoiseControlMode::Anc) {
        assert(s4[s1.len() as int] == NoiseControlMode::Anc);
    }
    if modes.contains(NoiseControlMode::Transparency) {
        assert(s4[s2.len() as int] == NoiseControlMode::Transparency);
    }
    if modes.contains(NoiseControlMode::Adaptive) {
        assert(s4[s3.len() as int] == NoiseControlMode::Adaptive);
    }
    if modes.len() > 0 {
        assert(modes.contains(modes[0]));
    }
}

/// Each setting that may be written is read back from its write as reported.
pub proof fn setting_writes_read_back(setting: SettingModel)
    requires
        setting.writable(),
    ensures
        packet_of(control_bytes(setting_wire(setting).0, setting_wire(setting).1)) == Ok::<
            PacketModel,
            DecodeError,
        >(PacketModel::Control(ControlModel::Setting(as_reported(setting)))),
{
    let (id, data) = setting_wire(setting);
    lemma_control_frame(id, data);
    let payload = control_bytes(id, data).skip(op::HEADER_LEN as int);
    let rest = payload.skip(1);
    assert(rest[0] == data[0]);
    match setting {
        SettingModel::CallControls(controls) => {
            assert(rest =~= seq![0x00u8, data[1], 0x00, 0x00]);
            if controls == CallControls::HangupOnceMuteTwice {
                assert(rest[1] == 0x02);
                assert(seq![0x00u8, 0x03, 0x00, 0x00][1] == 0x03);
            }
        },
        SettingModel::ListeningModeCycle(modes) => {
            masks_keep_the_modes(modes, NoiseControlMode::Off);
            assert(rest.skip(1) =~= seq![0u8, 0, 0]);
        },
        _ => {
            assert(rest.skip(1) =~= seq![0u8, 0, 0]);
        },
    }
}

/// A relayed message is read with its sender and its whole body, whatever the
/// body holds, as long as its length can be declared.
pub proof fn relayed_bodies_read_back(sender: Seq<u8>, body: Seq<u8>)
    requires
        sender.len() == 6,
        body.len() <= 0xffff,
    ensures
        packet_of(routing_bytes(op::OP_SMART_ROUTING_RELAY, sender, body)) == Ok::<
            PacketModel,
            DecodeError,
        >(PacketModel::SmartRouting { sender, body }),
{
    let frame = routing_bytes(op::OP_SMART_ROUTING_RELAY, sender, body);
    let payload = frame.skip(op::HEADER_LEN as int);
    assert(frame.take(4) =~= op::PREFIX@);
    assert(frame.take(4)[0] != op::ACK_PREFIX@[0]);
    assert(frame[4] == 0x11 && frame[5] == 0);
    assert(payload =~= sender.reverse() + le_bytes(body.len() as int) + body);
    assert(payload.take(6) =~= sender.reverse());
    assert(sender.reverse().reverse() =~= sender);
    assert(payload[6] == (body.len() % 256) as u8);
    assert(payload[7] == (body.len() / 256) as u8);
    assert(le16(payload[6], payload[7]) == body.len());
    assert(payload.skip(8) =~= body);
}

/// A hijack asks its target to yield.
pub proof fn a_hijack_requests_a_yield()
    ensures
        occurs_in(hijack_body(), encode_utf8(OWNERSHIP_TO_FALSE@)),
{
    let key = encode_utf8(OWNERSHIP_TO_FALSE@);
    reveal_strlit("audioRoutingSetOwnershipToFalse");
    vstd::utf8::is_ascii_chars_encode_utf8(OWNERSHIP_TO_FALSE@);
    assert(key.len() == 31);
    short_strings_keep_whole_characters(OWNERSHIP_TO_FALSE@);
    assert(key.take(short_len(key)) =~= key);
    let at: int = hijack_head().len() as int + 1;
    assert(hijack_body().subrange(at, at + key.len()) =~= key);
    assert(occurs_at(hijack_body(), key, at));
}

/// A host reads as the same host wherever it is reported: an audio source
/// writes its address backwards, a list of hosts forwards.
pub proof fn a_host_reads_the_same_everywhere(
    address: Seq<u8>,
    state: u8,
    info: Seq<u8>,
    header: Seq<u8>,
)
    requires
        address.len() == 6,
        info.len() == 2,
        header.len() == 2,
    ensures
        packet_of(header_bytes(op::OP_AUDIO_SOURCE) + address.reverse() + seq![state]) matches Ok(
            PacketModel::AudioSource { address: source, .. },
        ) && source == address,
        packet_of(header_bytes(op::OP_CONNECTED_DEVICES) + header + seq![1u8] + address + info)
            matches Ok(PacketModel::ConnectedDevices { devices, .. }) && devices.len() == 1
            && devices[0].address == address && devices[0].info == info,
{
    let source = header_bytes(op::OP_AUDIO_SOURCE) + address.reverse() + seq![state];
    assert(source.take(4) =~= op::PREFIX@);
    assert(source.take(4)[0] != op::ACK_PREFIX@[0]);
    assert(source[4] == 0x0e && source[5] == 0);
    assert(source.skip(op::HEADER_LEN as int).take(6) =~= address.reverse());
    assert(address.reverse().reverse() =~= address);
    let list = header_bytes(op::OP_CONNECTED_DEVICES) + header + seq![1u8] + address + info;
    assert(list.take(4) =~= op::PREFIX@);
    assert(list.take(4)[0] != op::ACK_PREFIX@[0]);
    assert(list[4] == 0x2e && list[5] == 0);
    let payload = list.skip(op::HEADER_LEN as int);
    assert(payload.len() == 11 && payload[2] == 1);
    assert(payload.subrange(3, 9) =~= address);
    assert(payload.subrange(9, 11) =~= info);
}

} // verus!
