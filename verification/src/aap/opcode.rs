//! Wire constants of the Apple Accessory Protocol.
use vstd::prelude::*;

verus! {

/// Every AAP message from or to the accessory is prefixed with these four
/// bytes, followed by a little-endian opcode.
pub const PREFIX: [u8; 4] = [0x04, 0x00, 0x04, 0x00];

/// The accessory answers the handshake with this prefix instead.
pub const ACK_PREFIX: [u8; 4] = [0x01, 0x00, 0x04, 0x00];

/// Length of prefix and opcode. Shorter packets are rejected.
pub const HEADER_LEN: usize = 6;

/// Battery notification (accessory to host).
pub const OP_BATTERY: u16 = 0x0004;

/// In-ear detection notification (accessory to host).
pub const OP_EAR_DETECTION: u16 = 0x0006;

/// Control write, and the accessory's echo of the resulting state.
pub const OP_CONTROL: u16 = 0x0009;

/// Address report (accessory to host).
pub const OP_ADDRESS_REPORT: u16 = 0x000C;

/// Audio source report (accessory to host).
pub const OP_AUDIO_SOURCE: u16 = 0x000E;

/// Subscribe to notifications (host to accessory).
pub const OP_REQUEST_NOTIFICATIONS: u16 = 0x000F;

/// Smart-routing message for the accessory to relay (host to accessory).
pub const OP_SMART_ROUTING: u16 = 0x0010;

/// Smart-routing message of another host (accessory to host).
pub const OP_SMART_ROUTING_RELAY: u16 = 0x0011;

/// Rename the accessory (host to accessory).
pub const OP_RENAME: u16 = 0x001A;

/// Device metadata: NUL-separated strings. The accessory pushes this
/// unsolicited after the handshake; it cannot be requested.
pub const OP_METADATA: u16 = 0x001D;

/// Feature-negotiation acknowledgement (accessory to host).
pub const OP_FEATURES_ACK: u16 = 0x002B;

/// Connected hosts (accessory to host).
pub const OP_CONNECTED_DEVICES: u16 = 0x002E;

/// Conversational-awareness speech event (accessory to host). Carries a
/// volume-duck level, not the on/off state.
pub const OP_CONV_AWARENESS_EVENT: u16 = 0x004B;

/// Feature negotiation (host to accessory).
pub const OP_SET_FEATURES: u16 = 0x004D;

/// Microphone: 00 automatic, 01 right, 02 left.
pub const CTL_MICROPHONE: u8 = 0x01;

/// Audio connection ownership: 01 own, 00 not.
pub const CTL_OWNS_CONNECTION: u8 = 0x06;

/// Noise control: 01 off, 02 anc, 03 transparency, 04 adaptive.
pub const CTL_NOISE_CONTROL: u8 = 0x0D;

/// Press speed: 00 default, 01 slower, 02 slowest.
pub const CTL_PRESS_SPEED: u8 = 0x17;

/// Press and hold duration: 00 default, 01 shorter, 02 shortest.
pub const CTL_HOLD_DURATION: u8 = 0x18;

/// Listening modes a press and hold steps through, one bit each.
pub const CTL_LISTENING_MODE_CYCLE: u8 = 0x1A;

/// Call controls, two bytes.
pub const CTL_CALL_CONTROLS: u8 = 0x24;

/// Personalized volume: 01 on, 02 off.
pub const CTL_PERSONALIZED_VOLUME: u8 = 0x26;

/// Conversational awareness: 01 on, 02 off.
pub const CTL_CONV_AWARENESS: u8 = 0x28;

/// Adaptive transparency level: 0-100.
pub const CTL_ADAPTIVE_LEVEL: u8 = 0x2E;

/// Bytes of an [`OP_METADATA`] payload before the NUL-separated strings.
pub const METADATA_SKIP: usize = 5;

/// L2CAP PSM the accessory listens on for AAP.
pub const AAP_PSM: u16 = 0x1001;

} // verus!
