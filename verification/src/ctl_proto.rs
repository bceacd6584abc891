//! The control protocol: what a client asks and what it is answered.
use crate::settings::SettingCommand;
use crate::state::{NoiseControlMode, Snapshot};
use vstd::prelude::*;
use vstd::string::*;

verus! {

/// A request from `auris` to the daemon.
#[derive(Debug, Clone, PartialEq, Eq)]
pub enum Request {
    /// `{"cmd":"set_noise_control","value":"anc"}`
    SetNoiseControl {
        /// Desired mode.
        value: NoiseControlMode,
    },
    /// `{"cmd":"set_conversational_awareness","value":true}`
    SetConversationalAwareness {
        /// On or off.
        value: bool,
    },
    /// `{"cmd":"set_adaptive_level","value":50}`
    SetAdaptiveLevel {
        /// 0-100.
        value: u8,
    },
    /// Send one AirPods 4 (ANC) setting. Success means sent, not confirmed.
    SetSetting {
        /// Typed key and value, flattened beside `cmd` on the wire.
        setting: SettingCommand,
    },
    /// Rename AirPods 4 (ANC). Metadata must confirm the new name later.
    Rename {
        /// Exact UTF-8 name to send.
        name: String,
    },
    /// `{"cmd":"reconnect"}`
    Reconnect,
    /// `{"cmd":"connect_once"}`: ask BlueZ once to connect the configured
    /// pinned, paired device. This can transfer audio and never retries.
    ConnectOnce,
    /// `{"cmd":"take_over"}`
    TakeOver,
    /// `{"cmd":"yield"}`
    Yield,
    /// `{"cmd":"set_handoff","enabled":true}`
    SetHandoff {
        /// On or off.
        enabled: bool,
    },
    /// `{"cmd":"status"}`: the reply is the state.json object itself.
    Status,
    /// `{"cmd":"subscribe"}`: the current snapshot, then one more every time
    /// anything changes, until the client goes away. No further requests are
    /// read on the connection once it is streaming.
    ///
    /// This exists so a UI does not have to poll `state.json`. The file is
    /// replaced by rename, which a file watcher does not reliably follow, so
    /// the alternative is a timer that is both late and always running.
    Subscribe,
}

/// A reply from the daemon. `status` answers with the snapshot; everything
/// else answers `{"ok":true}` or `{"ok":false,"error":"..."}`.
#[derive(Debug, Clone, PartialEq, Eq)]
pub enum Response {
    /// The state.json document, verbatim.
    Status(Box<Snapshot>),
    /// Acknowledgement or failure.
    Ack {
        /// Whether the command succeeded.
        ok: bool,
        /// Human-readable reason when `ok` is false.
        error: Option<String>,
    },
}

impl Response {
    /// `{"ok":true}`
    pub fn ok() -> (r: Self)
        ensures
            r == (Response::Ack { ok: true, error: None }),
    {
        Response::Ack { ok: true, error: None }
    }

    /// `{"ok":false,"error":"..."}`
    pub fn error(msg: &str) -> (r: Self)
        ensures
            r matches Response::Ack { ok: false, error: Some(text) } && text@ == msg@,
    {
        Response::Ack { ok: false, error: Some(msg.to_owned()) }
    }
}

} // verus!
