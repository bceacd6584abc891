//! The control CLI: what a command asks for, and how an answer is shown.
//!
//! Exit codes: 0 success, 1 the daemon returned an error, 2 the daemon is not
//! reachable.
use crate::clock::{Duration, MILLISECOND, SECOND};
use crate::ctl_proto::{Request, Response};
use crate::json::{self, json_fault};
use crate::settings::{
    json_value, name_refusal, read_json, setting_named, valid_name, validate_name, JsonModel,
    JsonValue, SettingCommand, SettingModel,
};
use crate::state::{
    AudioSourceStatus, Cell, Handoff, HandoffDevice, HandoffEventKind, HandoffOwner, NoiseControl,
    NoiseControlMode, Settings, Snapshot, Source, NAME_KEY,
};
use crate::text::{chars_of, decimal, push_decimal, same_text, string_of, text_view, trim, trimmed};
use vstd::prelude::*;
use vstd::string::*;

verus! {

/// Daemon returned `{"ok":false,...}`.
pub const EXIT_DAEMON_ERROR: u8 = 1;

/// Could not talk to the daemon at all.
pub const EXIT_UNREACHABLE: u8 = 2;

/// The daemon answers in microseconds; this only guards against a wedged one.
pub const IO_TIMEOUT: Duration = 5 * SECOND;

/// Longest wait for a setting readback. The daemon gives up at the same point,
/// so whichever expires first the answer is the same.
pub const VERIFY_WAIT: Duration = 10 * SECOND;

/// How long a blocking read may sit before the deadline is rechecked.
pub const VERIFY_POLL: Duration = 500 * MILLISECOND;

/// What `auris handoff` is told.
#[derive(Debug, Clone, Copy, PartialEq, Eq, Structural)]
pub enum HandoffChoice {
    /// Switch it on.
    On,
    /// Switch it off.
    Off,
    /// Show its state.
    Status,
}

/// One command line.
#[derive(Debug, Clone, PartialEq, Eq)]
pub enum Command {
    /// Set the noise control mode.
    Noise(NoiseControlMode),
    /// Turn conversational awareness on or off.
    ConversationalAwareness(bool),
    /// Set the adaptive transparency level.
    Adaptive(u8),
    /// Drop and re-establish the AAP link.
    Reconnect,
    /// Ask BlueZ once to connect the pinned paired device.
    ConnectOnce,
    /// Apple multi-host switching: turn it on or off, or show its state.
    Handoff(HandoffChoice),
    /// Take the AirPods over from another Apple host now.
    TakeOver,
    /// Give the AirPods up to another Apple host now.
    Yield,
    /// Rename the accessory.
    Rename(String),
    /// Set a typed setting using a JSON value.
    Setting {
        /// Setting key.
        key: String,
        /// JSON string, boolean, or array appropriate for the key.
        value: String,
        /// What the deserializer says of the two where they name no setting.
        unread: String,
    },
    /// Show the current state.
    Status {
        /// Print the raw document instead of a summary.
        json: bool,
    },
}

/// One command, fully validated, plus what to do with a successful answer.
#[derive(Debug, Clone, PartialEq, Eq)]
pub struct Parsed {
    /// What to ask the daemon.
    pub request: Request,
    /// Print the raw document of a status reply.
    pub wants_json: bool,
    /// Print only the handoff section of a status reply.
    pub handoff_view: bool,
    /// Print this after a success.
    pub notice: Option<&'static str>,
    /// Setting key whose readback must be waited for.
    pub verify_key: Option<String>,
}

impl Parsed {
    /// A request whose answer is shown as it is.
    pub fn plain(request: Request, wants_json: bool) -> (r: Self)
        ensures
            r == (Parsed {
                request,
                wants_json,
                handoff_view: false,
                notice: None,
                verify_key: None,
            }),
    {
        Parsed { request, wants_json, handoff_view: false, notice: None, verify_key: None }
    }
}

/// The parsed command asks for this and waits for nothing.
pub open spec fn asks(r: Result<Parsed, String>, request: Request, wants_json: bool) -> bool {
    r matches Ok(p) && p.request == request && p.wants_json == wants_json && !p.handoff_view
        && p.notice is None && p.verify_key is None
}

/// The parsed command asks for a write and waits for its readback.
pub open spec fn awaits(p: Parsed, key: Seq<char>) -> bool {
    !p.wants_json && !p.handoff_view && p.notice is None && text_view(p.verify_key) == Some(key)
}

/// What a setting's key and value come to: a setting that may be written, or
/// why not. `fault` says why the value's text is no JSON, if it is none, and
/// `unread` why the two name no setting, where they name none.
pub open spec fn setting_asked(
    key: Seq<char>,
    fault: Option<Seq<char>>,
    value: JsonModel,
    unread: Seq<char>,
) -> Result<SettingModel, Seq<char>> {
    match fault {
        Some(e) => Err("invalid JSON value for "@ + key + ": "@ + e),
        None => match setting_named(key, value) {
            Some(setting) => if setting.writable() {
                Ok(setting)
            } else {
                Err(setting.refusal())
            },
            None => Err("invalid setting: "@ + unread),
        },
    }
}

/// Decide what a setting's key and value come to, given why the value's text
/// is no JSON, if it is none, and why the two name no setting, where they name
/// none.
pub fn settle_setting(
    key: &str,
    fault: Option<String>,
    value: &JsonValue,
    unread: &str,
) -> (r: Result<SettingCommand, String>)
    ensures
        match r {
            Ok(setting) => setting_asked(key@, text_view(fault), value@, unread@) == Ok::<
                SettingModel,
                Seq<char>,
            >(setting@),
            Err(e) => setting_asked(key@, text_view(fault), value@, unread@) == Err::<
                SettingModel,
                Seq<char>,
            >(e@),
        },
{
    if let Some(e) = fault {
        let mut out: String = "invalid JSON value for ".to_owned();
        out.append(key);
        out.append(": ");
        out.append(e.as_str());
        return Err(out);
    }
    match SettingCommand::from_value(key, value) {
        Some(setting) => match setting.validate() {
            Ok(()) => Ok(setting),
            Err(e) => Err(e),
        },
        None => {
            let mut out: String = "invalid setting: ".to_owned();
            out.append(unread);
            Err(out)
        },
    }
}

/// Convert CLI input into a fully validated request before opening the socket.
pub fn request_from_command(command: Command) -> (r: Result<Parsed, String>)
    ensures
        match command {
            Command::Noise(mode) => asks(r, Request::SetNoiseControl { value: mode }, false),
            Command::ConversationalAwareness(on) => asks(
                r,
                Request::SetConversationalAwareness { value: on },
                false,
            ),
            Command::Adaptive(level) => asks(
                r,
                Request::SetAdaptiveLevel { value: level },
                false,
            ),
            Command::Reconnect => asks(r, Request::Reconnect, false),
            Command::ConnectOnce => asks(r, Request::ConnectOnce, false),
            Command::Handoff(HandoffChoice::Status) => r matches Ok(p) && p.request
                == Request::Status && !p.wants_json && p.handoff_view && p.notice is None
                && p.verify_key is None,
            Command::Handoff(choice) => asks(
                r,
                Request::SetHandoff { enabled: choice == HandoffChoice::On },
                false,
            ),
            Command::TakeOver => asks(r, Request::TakeOver, false),
            Command::Yield => asks(r, Request::Yield, false),
            Command::Rename(name) => if valid_name(name@) {
                r matches Ok(p) && p.request == (Request::Rename { name }) && awaits(p, NAME_KEY@)
            } else {
                r matches Err(e) && e@ == name_refusal(name@)
            },
            Command::Setting { key, value, unread } => match setting_asked(
                key@,
                json_fault(value@),
                json_value(value@),
                unread@,
            ) {
                Ok(model) => r matches Ok(p) && (p.request matches Request::SetSetting { setting }
                    && setting@ == model) && awaits(p, model.key()),
                Err(why) => r matches Err(e) && e@ == why,
            },
            Command::Status { json } => asks(r, Request::Status, json),
        },
{
    match command {
        Command::Noise(mode) => Ok(Parsed::plain(Request::SetNoiseControl { value: mode }, false)),
        Command::ConversationalAwareness(on) => Ok(
            Parsed::plain(Request::SetConversationalAwareness { value: on }, false),
        ),
        Command::Adaptive(level) => Ok(
            Parsed::plain(Request::SetAdaptiveLevel { value: level }, false),
        ),
        Command::Reconnect => Ok(Parsed::plain(Request::Reconnect, false)),
        Command::ConnectOnce => Ok(Parsed::plain(Request::ConnectOnce, false)),
        Command::Handoff(HandoffChoice::Status) => Ok(
            Parsed {
                request: Request::Status,
                wants_json: false,
                handoff_view: true,
                notice: None,
                verify_key: None,
            },
        ),
        Command::Handoff(HandoffChoice::On) => Ok(
            Parsed::plain(Request::SetHandoff { enabled: true }, false),
        ),
        Command::Handoff(HandoffChoice::Off) => Ok(
            Parsed::plain(Request::SetHandoff { enabled: false }, false),
        ),
        Command::TakeOver => Ok(Parsed::plain(Request::TakeOver, false)),
        Command::Yield => Ok(Parsed::plain(Request::Yield, false)),
        Command::Rename(name) => {
            match validate_name(name.as_str()) {
                Ok(()) => {},
                Err(e) => {
                    return Err(e);
                },
            }
            Ok(
                Parsed {
                    request: Request::Rename { name },
                    wants_json: false,
                    handoff_view: false,
                    notice: None,
                    verify_key: Some(NAME_KEY.to_owned()),
                },
            )
        },
        Command::Setting { key, value, unread } => {
            let fault = json::fault(value.as_str());
            let read = read_json(value.as_str());
            match settle_setting(key.as_str(), fault, &read, unread.as_str()) {
                Ok(setting) => {
                    let verify_key: String = setting.key().to_owned();
                    Ok(
                        Parsed {
                            request: Request::SetSetting { setting },
                            wants_json: false,
                            handoff_view: false,
                            notice: None,
                            verify_key: Some(verify_key),
                        },
                    )
                },
                Err(e) => Err(e),
            }
        },
        Command::Status { json } => Ok(Parsed::plain(Request::Status, json)),
    }
}

// ---------------------------------------------------------------------------
// The readback of a write
// ---------------------------------------------------------------------------

/// What the daemon's readback concluded about one setting write.
#[derive(Debug, Clone, PartialEq, Eq)]
pub enum Outcome {
    /// A fresh dump reported exactly what was written.
    Confirmed,
    /// A fresh dump reported something else; the accessory won.
    Kept(String),
    /// The readback ran, but this model never reports the key at all.
    Unreported,
    /// No readback could be completed. The write itself still went out.
    Unverified(String),
    /// The daemon predates the readback contract.
    Legacy,
}

/// An outcome with its text read as a sequence.
#[verifier::ext_equal]
pub enum OutcomeModel {
    /// See [`Outcome::Confirmed`].
    Confirmed,
    /// See [`Outcome::Kept`].
    Kept(Seq<char>),
    /// See [`Outcome::Unreported`].
    Unreported,
    /// See [`Outcome::Unverified`].
    Unverified(Seq<char>),
    /// See [`Outcome::Legacy`].
    Legacy,
}

impl View for Outcome {
    type V = OutcomeModel;

    open spec fn view(&self) -> OutcomeModel {
        match *self {
            Outcome::Confirmed => OutcomeModel::Confirmed,
            Outcome::Kept(value) => OutcomeModel::Kept(value@),
            Outcome::Unreported => OutcomeModel::Unreported,
            Outcome::Unverified(why) => OutcomeModel::Unverified(why@),
            Outcome::Legacy => OutcomeModel::Legacy,
        }
    }
}

impl OutcomeModel {
    /// The line to print.
    pub open spec fn said(self) -> Seq<char> {
        match self {
            OutcomeModel::Confirmed => "confirmed by AirPods"@,
            OutcomeModel::Kept(value) => "AirPods kept "@ + value,
            OutcomeModel::Unreported => "applied; AirPods 4 (ANC) never reports this setting back"@,
            OutcomeModel::Unverified(why) => "sent but not verified: "@ + why,
            OutcomeModel::Legacy => "sent; waiting for AirPods to report the setting"@,
        }
    }

    /// The exit code.
    pub open spec fn code(self) -> u8 {
        match self {
            OutcomeModel::Kept(_) => EXIT_DAEMON_ERROR,
            OutcomeModel::Unverified(_) => EXIT_DAEMON_ERROR,
            _ => 0,
        }
    }
}

impl Outcome {
    /// The single line to print, and the process exit code with it.
    pub fn line(&self) -> (r: (String, u8))
        ensures
            r.0@ == self@.said(),
            r.1 == self@.code(),
    {
        match self {
            Outcome::Confirmed => ("confirmed by AirPods".to_owned(), 0),
            Outcome::Kept(value) => {
                let mut text: String = "AirPods kept ".to_owned();
                text.append(value.as_str());
                (text, EXIT_DAEMON_ERROR)
            },
            Outcome::Unreported => (
                "applied; AirPods 4 (ANC) never reports this setting back".to_owned(),
                0,
            ),
            Outcome::Unverified(why) => {
                let mut text: String = "sent but not verified: ".to_owned();
                text.append(why.as_str());
                (text, EXIT_DAEMON_ERROR)
            },
            Outcome::Legacy => ("sent; waiting for AirPods to report the setting".to_owned(), 0),
        }
    }
}

/// A name in double quotes.
pub open spec fn quoted(word: Seq<char>) -> Seq<char> {
    "\""@ + word + "\""@
}

fn quote(word: &str) -> (r: String)
    ensures
        r@ == quoted(word@),
{
    let mut text: String = "\"".to_owned();
    text.append(word);
    text.append("\"");
    text
}

/// The quoted names of the modes, with commas between them.
pub open spec fn mode_list(modes: Seq<NoiseControlMode>) -> Seq<char>
    decreases modes.len(),
{
    if modes.len() == 0 {
        Seq::empty()
    } else if modes.len() == 1 {
        quoted(modes[0].word())
    } else {
        mode_list(modes.drop_last()) + ","@ + quoted(modes.last().word())
    }
}

fn list_modes(modes: &Vec<NoiseControlMode>) -> (r: String)
    ensures
        r@ == "["@ + mode_list(modes@) + "]"@,
{
    let mut text: String = "[".to_owned();
    let mut i: usize = 0;
    proof {
        assert(modes@.take(0) =~= Seq::empty());
        assert("["@ + Seq::<char>::empty() =~= "["@);
    }
    while i < modes.len()
        invariant
            i <= modes@.len(),
            text@ == "["@ + mode_list(modes@.take(i as int)),
        decreases modes@.len() - i,
    {
        proof {
            let next = modes@.take(i + 1);
            assert(next.drop_last() =~= modes@.take(i as int));
            assert(next.last() == modes@[i as int]);
            if i == 0 {
                assert(next[0] == next.last());
                assert("["@ + Seq::<char>::empty() + quoted(next[0].word()) =~= "["@ + quoted(
                    next[0].word(),
                ));
            } else {
                assert("["@ + mode_list(modes@.take(i as int)) + ","@ + quoted(
                    next.last().word(),
                ) =~= "["@ + mode_list(next));
            }
        }
        if i > 0 {
            text.append(",");
        }
        text.append(quote(modes[i].name()).as_str());
        i += 1;
    }
    proof {
        assert(modes@.take(i as int) =~= modes@);
    }
    text.append("]");
    text
}

/// A reported setting: a name, or another JSON text.
#[verifier::ext_equal]
pub enum Reported {
    /// One of the setting's names.
    Word(Seq<char>),
    /// Any other value, as JSON.
    Json(Seq<char>),
}

impl Reported {
    /// As JSON.
    pub open spec fn json(self) -> Seq<char> {
        match self {
            Reported::Word(word) => quoted(word),
            Reported::Json(text) => text,
        }
    }

    /// The way a person would say it.
    pub open spec fn plain(self) -> Seq<char> {
        match self {
            Reported::Word(word) => word,
            Reported::Json(text) => text,
        }
    }
}

/// A truth value as JSON.
pub open spec fn flag_text(on: bool) -> Seq<char> {
    if on {
        "true"@
    } else {
        "false"@
    }
}

/// What is reported under a key, if anything is.
pub open spec fn reported(s: Settings, key: Seq<char>) -> Option<Reported> {
    if key == "microphone"@ {
        match s.microphone {
            Some(v) => Some(Reported::Word(v.word())),
            None => None,
        }
    } else if key == "press_speed"@ {
        match s.press_speed {
            Some(v) => Some(Reported::Word(v.word())),
            None => None,
        }
    } else if key == "hold_duration"@ {
        match s.hold_duration {
            Some(v) => Some(Reported::Word(v.word())),
            None => None,
        }
    } else if key == "listening_mode_cycle"@ {
        match s.listening_mode_cycle {
            Some(modes) => Some(Reported::Json("["@ + mode_list(modes@) + "]"@)),
            None => None,
        }
    } else if key == "call_controls"@ {
        match s.call_controls {
            Some(v) => Some(Reported::Word(v.word())),
            None => None,
        }
    } else if key == "personalized_volume"@ {
        match s.personalized_volume {
            Some(on) => Some(Reported::Json(flag_text(on))),
            None => None,
        }
    } else {
        None
    }
}

/// The text of a reported setting, and whether it is one of the setting's
/// names.
fn read_reported(s: &Settings, key: &str) -> (r: Option<(String, bool)>)
    ensures
        match r {
            Some((text, true)) => reported(*s, key@) == Some(Reported::Word(text@)),
            Some((text, false)) => reported(*s, key@) == Some(Reported::Json(text@)),
            None => reported(*s, key@) is None,
        },
{
    if same_text(key, "microphone") {
        match s.microphone {
            Some(v) => Some((v.name().to_owned(), true)),
            None => None,
        }
    } else if same_text(key, "press_speed") {
        match s.press_speed {
            Some(v) => Some((v.name().to_owned(), true)),
            None => None,
        }
    } else if same_text(key, "hold_duration") {
        match s.hold_duration {
            Some(v) => Some((v.name().to_owned(), true)),
            None => None,
        }
    } else if same_text(key, "listening_mode_cycle") {
        match &s.listening_mode_cycle {
            Some(modes) => Some((list_modes(modes), false)),
            None => None,
        }
    } else if same_text(key, "call_controls") {
        match s.call_controls {
            Some(v) => Some((v.name().to_owned(), true)),
            None => None,
        }
    } else if same_text(key, "personalized_volume") {
        match s.personalized_volume {
            Some(on) => Some(
                (
                    if on {
                        "true".to_owned()
                    } else {
                        "false".to_owned()
                    },
                    false,
                ),
            ),
            None => None,
        }
    } else {
        None
    }
}

/// A reported value the way a person would say it.
pub open spec fn value_text(s: Snapshot, key: Seq<char>) -> Seq<char> {
    if key == NAME_KEY@ {
        if s.device.name@.len() == 0 {
            "a different name"@
        } else {
            s.device.name@
        }
    } else {
        match reported(s.settings, key) {
            Some(value) => value.plain(),
            None => "a different value"@,
        }
    }
}

fn is_empty(text: &str) -> (r: bool)
    ensures
        r == (text@.len() == 0),
{
    chars_of(text).len() == 0
}

/// Render a reported setting value the way a person would say it.
pub fn reported_value(snapshot: &Snapshot, key: &str) -> (r: String)
    ensures
        r@ == value_text(*snapshot, key@),
{
    if same_text(key, NAME_KEY) {
        return if is_empty(snapshot.device.name.as_str()) {
            "a different name".to_owned()
        } else {
            snapshot.device.name.clone()
        };
    }
    match read_reported(&snapshot.settings, key) {
        Some((text, _)) => text,
        None => "a different value".to_owned(),
    }
}

/// Why a readback could not conclude.
pub open spec fn no_readback(s: Snapshot) -> Seq<char> {
    if !s.device.connected {
        "the AirPods disconnected"@
    } else if !s.device.aap_link {
        "the AAP link could not be reopened"@
    } else {
        "the AirPods did not report the setting back in time"@
    }
}

/// Why a readback could not conclude, in the words of the published state.
pub fn unverified_reason(snapshot: &Snapshot) -> (r: String)
    ensures
        r@ == no_readback(*snapshot),
{
    if !snapshot.device.connected {
        "the AirPods disconnected".to_owned()
    } else if !snapshot.device.aap_link {
        "the AAP link could not be reopened".to_owned()
    } else {
        "the AirPods did not report the setting back in time".to_owned()
    }
}

/// What one snapshot says about a key's readback; `None` while it runs.
pub open spec fn concluded(s: Snapshot, key: Seq<char>) -> Option<OutcomeModel> {
    if s.settings_api < 2 {
        Some(OutcomeModel::Legacy)
    } else if !s.settings_status@.contains_key(key) {
        None
    } else {
        let status = s.settings_status@[key];
        if status == "verifying"@ {
            None
        } else if status == "confirmed"@ {
            Some(OutcomeModel::Confirmed)
        } else if status == "mismatch"@ {
            Some(OutcomeModel::Kept(value_text(s, key)))
        } else if status == "unreported"@ {
            Some(OutcomeModel::Unreported)
        } else if status == "unverified"@ {
            Some(OutcomeModel::Unverified(no_readback(s)))
        } else {
            Some(OutcomeModel::Unverified("the daemon reported an unknown status "@ + status))
        }
    }
}

/// Read one snapshot. `None` means the readback is still running.
pub fn outcome_for(snapshot: &Snapshot, key: &str) -> (r: Option<Outcome>)
    ensures
        match r {
            Some(o) => concluded(*snapshot, key@) == Some(o@),
            None => concluded(*snapshot, key@) is None,
        },
{
    if snapshot.settings_api < 2 {
        return Some(Outcome::Legacy);
    }
    let status: &str = match snapshot.settings_status.get(key) {
        Some(status) => status,
        None => {
            return None;
        },
    };
    if same_text(status, "verifying") {
        None
    } else if same_text(status, "confirmed") {
        Some(Outcome::Confirmed)
    } else if same_text(status, "mismatch") {
        Some(Outcome::Kept(reported_value(snapshot, key)))
    } else if same_text(status, "unreported") {
        Some(Outcome::Unreported)
    } else if same_text(status, "unverified") {
        Some(Outcome::Unverified(unverified_reason(snapshot)))
    } else {
        let mut text: String = "the daemon reported an unknown status ".to_owned();
        text.append(status);
        Some(Outcome::Unverified(text))
    }
}

/// Why watching the daemon ended without an answer.
#[derive(Debug, Clone, PartialEq, Eq)]
pub enum WatchEnd {
    /// It could not begin.
    CouldNotWatch(String),
    /// Time ran out.
    TimedOut,
    /// The daemon closed the subscription.
    Closed,
    /// Reading failed.
    Lost(String),
}

/// What a watch without an answer comes to.
pub fn watch_outcome(end: WatchEnd) -> (r: Outcome)
    ensures
        r@ == OutcomeModel::Unverified(
            match end {
                WatchEnd::CouldNotWatch(e) => "could not watch the daemon: "@ + e@,
                WatchEnd::TimedOut => "the AirPods did not report the setting back in time"@,
                WatchEnd::Closed => "the daemon closed the subscription"@,
                WatchEnd::Lost(e) => "lost the daemon subscription: "@ + e@,
            },
        ),
{
    match end {
        WatchEnd::CouldNotWatch(e) => {
            let mut text: String = "could not watch the daemon: ".to_owned();
            text.append(e.as_str());
            Outcome::Unverified(text)
        },
        WatchEnd::TimedOut => Outcome::Unverified(
            "the AirPods did not report the setting back in time".to_owned(),
        ),
        WatchEnd::Closed => Outcome::Unverified("the daemon closed the subscription".to_owned()),
        WatchEnd::Lost(e) => {
            let mut text: String = "lost the daemon subscription: ".to_owned();
            text.append(e.as_str());
            Outcome::Unverified(text)
        },
    }
}

/// Success is reported exactly when nothing contradicts the write: the exit
/// code is zero for a confirmed, an unreportable and a legacy write.
pub proof fn only_doubt_fails(o: OutcomeModel)
    ensures
        o.code() == 0 <==> o is Confirmed || o is Unreported || o is Legacy,
        o.code() == 0 || o.code() == EXIT_DAEMON_ERROR,
{
}

/// A snapshot that is still verifying a key is never an answer about it,
/// whatever else it says.
pub proof fn verifying_is_no_answer(s: Snapshot, key: Seq<char>)
    requires
        s.settings_api >= 2,
        s.settings_status@.contains_pair(key, "verifying"@),
    ensures
        concluded(s, key) is None,
{
}

/// The text with spaces for newlines.
pub open spec fn one_line(text: Seq<char>) -> Seq<char> {
    text.map_values(|c: char| if c == '\n' { ' ' } else { c })
}

/// How a failure is reported: one line, with the program's name.
pub fn failure_line(text: &str) -> (r: String)
    ensures
        r@ == "auris: "@ + trimmed(one_line(text@)),
{
    let chars: Vec<char> = chars_of(text);
    let mut plain: Vec<char> = Vec::new();
    let mut i: usize = 0;
    while i < chars.len()
        invariant
            i <= chars.len(),
            chars@ == text@,
            plain@ == one_line(text@).take(i as int),
        decreases chars.len() - i,
    {
        proof {
            assert(one_line(text@).take(i + 1) =~= one_line(text@).take(i as int).push(
                one_line(text@)[i as int],
            ));
        }
        let c: char = chars[i];
        plain.push(
            if c == '\n' {
                ' '
            } else {
                c
            },
        );
        i += 1;
    }
    proof {
        assert(one_line(text@).take(i as int) =~= one_line(text@));
    }
    let mut out: String = "auris: ".to_owned();
    out.append(string_of(trim(&plain).as_slice()).as_str());
    out
}

// ---------------------------------------------------------------------------
// Showing the state
// ---------------------------------------------------------------------------

/// A cell as it is shown.
pub open spec fn cell_text(label: Seq<char>, c: Cell) -> Seq<char> {
    if c.present && c.level is Some {
        label + " "@ + decimal(c.level->0 as nat) + "%"@ + (if c.charging {
            " (charging)"@
        } else {
            ""@
        })
    } else {
        label + " --"@
    }
}

/// A cell as it is shown: its level while it reports one.
pub fn cell(label: &str, c: &Cell) -> (r: String)
    ensures
        r@ == cell_text(label@, *c),
{
    let mut out: String = label.to_owned();
    match c.level {
        Some(level) => if c.present {
            out.append(" ");
            push_decimal(&mut out, level as u64);
            out.append("%");
            out.append(
                if c.charging {
                    " (charging)"
                } else {
                    ""
                },
            );
            return out;
        },
        None => {},
    }
    out.append(" --");
    out
}

/// A published noise control mode's name.
pub open spec fn noise_word(n: NoiseControl) -> Seq<char> {
    match n {
        NoiseControl::Off => "off"@,
        NoiseControl::Anc => "anc"@,
        NoiseControl::Transparency => "transparency"@,
        NoiseControl::Adaptive => "adaptive"@,
        NoiseControl::Unknown => "unknown"@,
    }
}

/// A published noise control mode's name.
pub fn noise_label(n: NoiseControl) -> (r: &'static str)
    ensures
        r@ == noise_word(n),
{
    match n {
        NoiseControl::Off => "off",
        NoiseControl::Anc => "anc",
        NoiseControl::Transparency => "transparency",
        NoiseControl::Adaptive => "adaptive",
        NoiseControl::Unknown => "unknown",
    }
}

/// A source's name.
pub open spec fn source_word(s: Source) -> Seq<char> {
    match s {
        Source::Aap => "aap"@,
        Source::Ble => "ble"@,
        Source::Nowhere => "none"@,
    }
}

fn source_label(s: Source) -> (r: &'static str)
    ensures
        r@ == source_word(s),
{
    match s {
        Source::Aap => "aap",
        Source::Ble => "ble",
        Source::Nowhere => "none",
    }
}

/// The text, or another one where it is empty.
pub open spec fn or_else(text: Seq<char>, other: Seq<char>) -> Seq<char> {
    if text.len() == 0 {
        other
    } else {
        text
    }
}

fn push_or(out: &mut String, text: &str, other: &str)
    ensures
        final(out)@ == old(out)@ + or_else(text@, other@),
{
    if is_empty(text) {
        out.append(other);
    } else {
        out.append(text);
    }
}

/// The first line: which accessory, and whether it is here.
pub open spec fn device_line(s: Snapshot) -> Seq<char> {
    or_else(s.device.name@, "AirPods"@) + " ["@ + (match s.device.model {
        Some(model) => model@,
        None => "unknown model"@,
    }) + "] "@ + or_else(s.device.address@, "no device"@) + ": "@ + (if !s.device.connected {
        "disconnected"@
    } else if s.device.aap_link {
        "connected"@
    } else {
        "connected (no AAP link)"@
    }) + "\n"@
}

fn device_text(s: &Snapshot) -> (r: String)
    ensures
        r@ == device_line(*s),
{
    let mut out: String = String::new();
    push_or(&mut out, s.device.name.as_str(), "AirPods");
    proof {
        assert(Seq::<char>::empty() + or_else(s.device.name@, "AirPods"@) =~= or_else(
            s.device.name@,
            "AirPods"@,
        ));
    }
    out.append(" [");
    match &s.device.model {
        Some(model) => out.append(model.as_str()),
        None => out.append("unknown model"),
    }
    out.append("] ");
    push_or(&mut out, s.device.address.as_str(), "no device");
    out.append(": ");
    out.append(
        if !s.device.connected {
            "disconnected"
        } else if s.device.aap_link {
            "connected"
        } else {
            "connected (no AAP link)"
        },
    );
    out.append("\n");
    out
}

/// The battery line.
pub open spec fn battery_line(s: Snapshot) -> Seq<char> {
    "battery: "@ + cell_text("L"@, s.battery.left) + "  "@ + cell_text("R"@, s.battery.right)
        + "  "@ + cell_text("case"@, s.battery.case) + (if s.battery.stale {
        "  (last known)"@
    } else {
        ""@
    }) + "\n"@
}

/// The noise control line.
pub open spec fn noise_line(s: Snapshot) -> Seq<char> {
    "noise: "@ + noise_word(s.noise_control) + "   source: "@ + source_word(s.daemon.source)
        + "\n"@
}

/// One setting's line.
pub open spec fn setting_line(s: Settings, key: Seq<char>) -> Seq<char> {
    "\n  "@ + key + ": "@ + (match reported(s, key) {
        Some(value) => value.json(),
        None => "unknown"@,
    })
}

fn push_setting(out: &mut String, s: &Settings, key: &str)
    ensures
        final(out)@ == old(out)@ + setting_line(*s, key@),
{
    let ghost before = out@;
    out.append("\n  ");
    out.append(key);
    out.append(": ");
    match read_reported(s, key) {
        Some((text, true)) => out.append(quote(text.as_str()).as_str()),
        Some((text, false)) => out.append(text.as_str()),
        None => out.append("unknown"),
    }
    proof {
        assert(out@ =~= before + setting_line(*s, key@));
    }
}

/// The settings section.
pub open spec fn settings_lines(s: Snapshot) -> Seq<char> {
    if s.settings_api == 0 {
        "settings: unavailable (older daemon)\n"@
    } else {
        "settings:"@ + setting_line(s.settings, "microphone"@) + setting_line(
            s.settings,
            "press_speed"@,
        ) + setting_line(s.settings, "hold_duration"@) + setting_line(
            s.settings,
            "listening_mode_cycle"@,
        ) + setting_line(s.settings, "call_controls"@) + setting_line(
            s.settings,
            "personalized_volume"@,
        ) + "\n"@
    }
}

fn settings_text(s: &Snapshot) -> (r: String)
    ensures
        r@ == settings_lines(*s),
{
    if s.settings_api == 0 {
        return "settings: unavailable (older daemon)\n".to_owned();
    }
    let mut out: String = "settings:".to_owned();
    push_setting(&mut out, &s.settings, "microphone");
    push_setting(&mut out, &s.settings, "press_speed");
    push_setting(&mut out, &s.settings, "hold_duration");
    push_setting(&mut out, &s.settings, "listening_mode_cycle");
    push_setting(&mut out, &s.settings, "call_controls");
    push_setting(&mut out, &s.settings, "personalized_volume");
    out.append("\n");
    out
}

/// The state as a short summary.
pub fn summary(s: &Snapshot) -> (r: String)
    ensures
        r@ == device_line(*s) + battery_line(*s) + noise_line(*s) + settings_lines(*s),
{
    let mut out: String = device_text(s);
    let mut battery: String = "battery: ".to_owned();
    battery.append(cell("L", &s.battery.left).as_str());
    battery.append("  ");
    battery.append(cell("R", &s.battery.right).as_str());
    battery.append("  ");
    battery.append(cell("case", &s.battery.case).as_str());
    battery.append(
        if s.battery.stale {
            "  (last known)"
        } else {
            ""
        },
    );
    battery.append("\n");
    out.append(battery.as_str());
    let mut noise: String = "noise: ".to_owned();
    noise.append(noise_label(s.noise_control));
    noise.append("   source: ");
    noise.append(source_label(s.daemon.source));
    noise.append("\n");
    out.append(noise.as_str());
    out.append(settings_text(s).as_str());
    out
}

/// Where a host is.
pub open spec fn place(is_local: bool) -> Seq<char> {
    if is_local {
        "this host"@
    } else {
        "other host"@
    }
}

fn place_of(is_local: bool) -> (r: &'static str)
    ensures
        r@ == place(is_local),
{
    if is_local {
        "this host"
    } else {
        "other host"
    }
}

/// An owner's wire name.
pub open spec fn owner_word(owner: HandoffOwner) -> Seq<char> {
    match owner {
        HandoffOwner::Local => "local"@,
        HandoffOwner::Other => "other"@,
        HandoffOwner::Unknown => "unknown"@,
    }
}

/// A status's wire name.
pub open spec fn status_word(status: AudioSourceStatus) -> Seq<char> {
    match status {
        AudioSourceStatus::Idle => "idle"@,
        AudioSourceStatus::Call => "call"@,
        AudioSourceStatus::Media => "media"@,
    }
}

/// A recorded event's wire name.
pub open spec fn kind_word(kind: HandoffEventKind) -> Seq<char> {
    match kind {
        HandoffEventKind::Yielded => "yielded"@,
        HandoffEventKind::YieldRequested => "yield_requested"@,
        HandoffEventKind::TookOver => "took_over"@,
    }
}

/// An owner's wire name.
pub fn owner_name(owner: HandoffOwner) -> (r: &'static str)
    ensures
        r@ == owner_word(owner),
{
    match owner {
        HandoffOwner::Local => "local",
        HandoffOwner::Other => "other",
        HandoffOwner::Unknown => "unknown",
    }
}

/// A status's wire name.
pub fn status_name(status: AudioSourceStatus) -> (r: &'static str)
    ensures
        r@ == status_word(status),
{
    match status {
        AudioSourceStatus::Idle => "idle",
        AudioSourceStatus::Call => "call",
        AudioSourceStatus::Media => "media",
    }
}

/// A recorded event's wire name.
pub fn kind_name(kind: HandoffEventKind) -> (r: &'static str)
    ensures
        r@ == kind_word(kind),
{
    match kind {
        HandoffEventKind::Yielded => "yielded",
        HandoffEventKind::YieldRequested => "yield_requested",
        HandoffEventKind::TookOver => "took_over",
    }
}

/// The hosts, with commas between them.
pub open spec fn host_list(devices: Seq<HandoffDevice>) -> Seq<char>
    decreases devices.len(),
{
    if devices.len() == 0 {
        Seq::empty()
    } else {
        let head = if devices.len() == 1 {
            Seq::empty()
        } else {
            host_list(devices.drop_last()) + ", "@
        };
        head + devices.last().address@ + " ("@ + place(devices.last().is_local) + ")"@
    }
}

fn list_hosts(devices: &Vec<HandoffDevice>) -> (r: String)
    ensures
        r@ == host_list(devices@),
{
    let mut out: String = String::new();
    let mut i: usize = 0;
    proof {
        assert(devices@.take(0) =~= Seq::empty());
    }
    while i < devices.len()
        invariant
            i <= devices@.len(),
            out@ == host_list(devices@.take(i as int)),
        decreases devices@.len() - i,
    {
        proof {
            let next = devices@.take(i + 1);
            assert(next.drop_last() =~= devices@.take(i as int));
            assert(next.last() == devices@[i as int]);
        }
        if i > 0 {
            out.append(", ");
        }
        out.append(devices[i].address.as_str());
        out.append(" (");
        out.append(place_of(devices[i].is_local));
        out.append(")");
        i += 1;
    }
    proof {
        assert(devices@.take(i as int) =~= devices@);
    }
    out
}

/// The first two lines: the switch, and the adapter's Device ID.
pub open spec fn switch_lines(h: Handoff) -> Seq<char> {
    "handoff: "@ + (if h.enabled {
        "on"@
    } else {
        "off"@
    }) + " (take over on play: "@ + (if h.take_over_on_play {
        "yes"@
    } else {
        "no"@
    }) + ")\n"@ + "apple device id: "@ + (match h.apple_host_id {
        Some(true) => "yes"@,
        Some(false) => "no (set DeviceID = bluetooth:004C:0000:0000 and re-pair)"@,
        None => "unknown"@,
    }) + "\n"@
}

fn switch_text(h: &Handoff) -> (r: String)
    ensures
        r@ == switch_lines(*h),
{
    let mut out: String = "handoff: ".to_owned();
    out.append(
        if h.enabled {
            "on"
        } else {
            "off"
        },
    );
    out.append(" (take over on play: ");
    out.append(
        if h.take_over_on_play {
            "yes"
        } else {
            "no"
        },
    );
    out.append(")\n");
    out.append("apple device id: ");
    match h.apple_host_id {
        Some(true) => out.append("yes"),
        Some(false) => out.append("no (set DeviceID = bluetooth:004C:0000:0000 and re-pair)"),
        None => out.append("unknown"),
    }
    out.append("\n");
    out
}

/// The lines about who has the audio.
pub open spec fn route_lines(h: Handoff) -> Seq<char> {
    "owner: "@ + owner_word(h.owner) + "\n"@ + (match h.audio_source {
        Some(src) => "audio source: "@ + src.address@ + " ("@ + place(src.is_local) + ") "@
            + status_word(src.state) + "\n"@,
        None => "audio source: unknown\n"@,
    }) + "devices: "@ + (if h.devices@.len() == 0 {
        "none"@
    } else {
        host_list(h.devices@)
    }) + "\n"@
}

fn source_text(h: &Handoff) -> (r: String)
    ensures
        r@ == (match h.audio_source {
            Some(src) => "audio source: "@ + src.address@ + " ("@ + place(src.is_local) + ") "@
                + status_word(src.state) + "\n"@,
            None => "audio source: unknown\n"@,
        }),
{
    match &h.audio_source {
        Some(src) => {
            let mut out: String = "audio source: ".to_owned();
            out.append(src.address.as_str());
            out.append(" (");
            out.append(place_of(src.is_local));
            out.append(") ");
            out.append(status_name(src.state));
            out.append("\n");
            out
        },
        None => "audio source: unknown\n".to_owned(),
    }
}

fn route_text(h: &Handoff) -> (r: String)
    ensures
        r@ == route_lines(*h),
{
    let mut out: String = "owner: ".to_owned();
    out.append(owner_name(h.owner));
    out.append("\n");
    out.append(source_text(h).as_str());
    out.append("devices: ");
    if h.devices.len() == 0 {
        out.append("none");
    } else {
        out.append(list_hosts(&h.devices).as_str());
    }
    out.append("\n");
    out
}

/// The line about the latest handoff.
pub open spec fn event_line(h: Handoff) -> Seq<char> {
    match h.last_event {
        Some(ev) => "last event: "@ + kind_word(ev.kind) + " at "@ + ev.at@ + (match ev.peer {
            Some(p) => " (peer "@ + p@ + ")"@,
            None => ""@,
        }) + "\n"@,
        None => "last event: none\n"@,
    }
}

fn event_text(h: &Handoff) -> (r: String)
    ensures
        r@ == event_line(*h),
{
    match &h.last_event {
        Some(ev) => {
            let mut out: String = "last event: ".to_owned();
            out.append(kind_name(ev.kind));
            out.append(" at ");
            out.append(ev.at.as_str());
            let mut peer: String = "".to_owned();
            if let Some(p) = &ev.peer {
                peer = " (peer ".to_owned();
                peer.append(p.as_str());
                peer.append(")");
            }
            out.append(peer.as_str());
            out.append("\n");
            out
        },
        None => "last event: none\n".to_owned(),
    }
}

/// The handoff section of the state, in words.
pub fn handoff_summary(s: &Snapshot) -> (r: String)
    ensures
        r@ == switch_lines(s.handoff) + route_lines(s.handoff) + event_line(s.handoff),
{
    let mut out: String = switch_text(&s.handoff);
    out.append(route_text(&s.handoff).as_str());
    out.append(event_text(&s.handoff).as_str());
    out
}

/// What the answer to a request comes to.
#[derive(Debug, Clone, PartialEq, Eq)]
pub enum Conclusion {
    /// Watch the readback of this setting.
    Await(String),
    /// Print this line, and succeed.
    Notice(&'static str),
    /// Print this text, and succeed.
    Show(String),
    /// Print the document itself, and succeed.
    Document(Box<Snapshot>),
    /// Succeed and say nothing.
    Quiet,
    /// Fail with this text.
    Fail(String),
}

/// What the daemon's answer comes to. The daemon stores a write silently, so
/// an acknowledged write that is to be verified is watched.
pub fn conclude(
    response: Response,
    wants_json: bool,
    handoff_view: bool,
    notice: Option<&'static str>,
    verify_key: Option<String>,
) -> (r: Conclusion)
    ensures
        match response {
            Response::Ack { ok: true, .. } => match (verify_key, notice) {
                (Some(key), _) => r == Conclusion::Await(key),
                (None, Some(line)) => r == Conclusion::Notice(line),
                (None, None) => r == Conclusion::Quiet,
            },
            Response::Ack { ok: false, error } => r matches Conclusion::Fail(why) && why@ == (
            match error {
                Some(e) => e@,
                None => "command failed"@,
            }),
            Response::Status(s) => if wants_json {
                r == Conclusion::Document(s)
            } else if handoff_view {
                r matches Conclusion::Show(text) && text@ == switch_lines(s.handoff) + route_lines(
                    s.handoff,
                ) + event_line(s.handoff)
            } else {
                r matches Conclusion::Show(text) && text@ == device_line(*s) + battery_line(*s)
                    + noise_line(*s) + settings_lines(*s)
            },
        },
{
    match response {
        Response::Ack { ok: true, .. } => match (verify_key, notice) {
            (Some(key), _) => Conclusion::Await(key),
            (None, Some(line)) => Conclusion::Notice(line),
            (None, None) => Conclusion::Quiet,
        },
        Response::Ack { ok: false, error } => match error {
            Some(e) => Conclusion::Fail(e),
            None => Conclusion::Fail("command failed".to_owned()),
        },
        Response::Status(s) => if wants_json {
            Conclusion::Document(s)
        } else if handoff_view {
            Conclusion::Show(handoff_summary(&s))
        } else {
            Conclusion::Show(summary(&s))
        },
    }
}

} // verus!
