//! How a Bluetooth connection ended, and how an attempt to restore it went.
use crate::address::Address;
use crate::text::same_text;
use vstd::prelude::*;
use vstd::string::*;

verus! {

/// Why BlueZ says a link went down.
#[derive(Debug, Clone, Copy, PartialEq, Eq, Structural)]
pub enum Reason {
    /// Only the `Connected` property moved; no reason was given.
    Unknown,
    /// Supervision timeout.
    Timeout,
    /// This host ended the link.
    Local,
    /// The accessory ended the link.
    Remote,
    /// Authentication failed.
    Authentication,
    /// The host was suspended.
    Suspend,
}

/// How one `Device1.Connect` ended.
#[derive(Debug, Clone, PartialEq, Eq)]
pub enum Outcome {
    /// The link is up.
    Connected,
    /// BlueZ is busy with another connect.
    Busy,
    /// Anything else, in BlueZ's words.
    Failed(String),
    /// Nothing was tried, and why.
    NotReady(&'static str),
}

impl Reason {
    /// What a BlueZ reason name says.
    pub open spec fn of_name(name: Seq<char>) -> Reason {
        if name == "org.bluez.Reason.Timeout"@ {
            Reason::Timeout
        } else if name == "org.bluez.Reason.Local"@ {
            Reason::Local
        } else if name == "org.bluez.Reason.Remote"@ {
            Reason::Remote
        } else if name == "org.bluez.Reason.Authentication"@ {
            Reason::Authentication
        } else if name == "org.bluez.Reason.Suspend"@ {
            Reason::Suspend
        } else {
            Reason::Unknown
        }
    }

    /// What a BlueZ reason name says; a name that is not known says nothing.
    pub fn from_bluez(name: &str) -> (r: Reason)
        ensures
            r == Reason::of_name(name@),
    {
        if same_text(name, "org.bluez.Reason.Timeout") {
            Reason::Timeout
        } else if same_text(name, "org.bluez.Reason.Local") {
            Reason::Local
        } else if same_text(name, "org.bluez.Reason.Remote") {
            Reason::Remote
        } else if same_text(name, "org.bluez.Reason.Authentication") {
            Reason::Authentication
        } else if same_text(name, "org.bluez.Reason.Suspend") {
            Reason::Suspend
        } else {
            Reason::Unknown
        }
    }
}

/// The adapter and the device as BlueZ shows them when a link goes down.
#[derive(Debug, Clone, Copy, PartialEq, Eq, Structural)]
pub struct LinkFacts {
    /// The adapter is powered.
    pub powered: bool,
    /// The device is paired.
    pub paired: bool,
    /// The device is blocked.
    pub blocked: bool,
}

/// One host of a connected-devices report.
#[derive(Debug, Clone, Copy, PartialEq, Eq)]
pub struct ListedHost {
    /// The host.
    pub address: Address,
    /// Its link to the AirPods is up.
    pub link_up: bool,
}

/// A reconnect that is scheduled or under way.
#[derive(Debug, Clone, Copy, PartialEq, Eq, Structural)]
pub struct Pending {
    /// Identifies the sequence.
    pub seq: u64,
    /// Connects started in it.
    pub attempt: u8,
    /// The link was lost to a timeout, not to another host.
    pub link_lost: bool,
}

} // verus!
