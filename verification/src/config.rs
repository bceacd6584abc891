//! The optional configuration file, as values.
use crate::aap::codec::{DEFAULT_BT_NAME, OPACK_SHORT_STRING};
use crate::ble::BleConfig;
use crate::settings::has_control;
use crate::text::{chars_of, control_char, decimal, push_decimal, text_view};
use vstd::prelude::*;
use vstd::string::*;
use vstd::utf8::encode_utf8;

verus! {

/// Which physical bud the accessory calls "primary" in an ear-detection
/// packet. The payload never says, and it is not a fixed property of the
/// hardware: whichever bud is doing the work becomes primary.
#[derive(Debug, Clone, Copy, PartialEq, Eq, Structural)]
pub enum PrimaryBud {
    /// Work it out from which buds are out of the case.
    Auto,
    /// Primary byte always describes the left bud.
    Left,
    /// Primary byte always describes the right bud.
    Right,
}

impl Default for PrimaryBud {
    fn default() -> (r: Self)
        ensures
            r == PrimaryBud::Auto,
    {
        PrimaryBud::Auto
    }
}

/// `[handoff]`: Apple multi-host switching over AAP.
#[derive(Debug, Clone, PartialEq, Eq)]
pub struct HandoffConfig {
    /// Yield to other Apple hosts and take over on local playback.
    pub enabled: bool,
    /// Take over when a local MPRIS player starts playing.
    pub take_over_on_play: bool,
    /// `btName` announced to other hosts. Default `Mac`.
    pub bt_name: Option<String>,
    /// Reconnect once when an Apple host's fresh connection made the AirPods
    /// drop this host. Needs `enabled`.
    pub rejoin_after_eviction: bool,
}

impl Default for HandoffConfig {
    fn default() -> (r: Self)
        ensures
            !r.enabled,
            r.take_over_on_play,
            r.bt_name is None,
            r.rejoin_after_eviction,
    {
        HandoffConfig {
            enabled: false,
            take_over_on_play: true,
            bt_name: None,
            rejoin_after_eviction: true,
        }
    }
}

/// A name that can be announced: not empty, short enough for one OPACK tag,
/// and free of control characters.
pub open spec fn usable_bt_name(name: Seq<char>) -> bool {
    &&& 1 <= encode_utf8(name).len() <= OPACK_SHORT_STRING
    &&& forall|i: int| 0 <= i < name.len() ==> !control_char(#[trigger] name[i])
}

impl HandoffConfig {
    /// The name announced to other hosts.
    pub open spec fn announced_name(self) -> Seq<char> {
        match self.bt_name {
            Some(name) => if usable_bt_name(name@) {
                name@
            } else {
                DEFAULT_BT_NAME@
            },
            None => DEFAULT_BT_NAME@,
        }
    }

    /// The configured `bt_name` if usable (1-32 bytes, no control
    /// characters), otherwise the default.
    pub fn bt_name(&self) -> (r: &str)
        ensures
            r@ == self.announced_name(),
    {
        match &self.bt_name {
            Some(name) => {
                let text: &str = name.as_str();
                let chars: Vec<char> = chars_of(text);
                let size: usize = text.as_bytes().len();
                if 1 <= size && size <= OPACK_SHORT_STRING && !has_control(&chars) {
                    text
                } else {
                    DEFAULT_BT_NAME
                }
            },
            None => DEFAULT_BT_NAME,
        }
    }
}

/// `[autoconnect]`: page the AirPods when their BLE proximity advert appears.
///
/// BlueZ never pages a classic device on its own, so a host only gets the
/// AirPods when they happen to page it. Watching for the advert and paging
/// once per case opening evens that up.
#[derive(Debug, Clone, Copy, PartialEq, Eq, Structural)]
pub struct AutoconnectConfig {
    /// Scan for the advert and page once per presence episode.
    pub enabled: bool,
    /// Ignore adverts weaker than this, in dBm.
    pub min_rssi: i16,
    /// Wait this long after the first advert before paging.
    pub settle_seconds: u64,
    /// Silence of at least this long ends a presence episode.
    pub absence_seconds: u64,
    /// Wait this long after a remote or timed-out disconnect before the first
    /// page sent without an advert.
    pub fallback_first_seconds: u64,
    /// Wait between later pages sent without an advert.
    pub fallback_interval_seconds: u64,
    /// Keep paging without an advert for at most this long after the
    /// disconnect. `0` leaves only the advert trigger.
    pub fallback_minutes: u64,
}

impl Default for AutoconnectConfig {
    fn default() -> (r: Self)
        ensures
            r == (AutoconnectConfig {
                enabled: true,
                min_rssi: -90i16,
                settle_seconds: 3,
                absence_seconds: 15,
                fallback_first_seconds: 20,
                fallback_interval_seconds: 45,
                fallback_minutes: 10,
            }),
    {
        AutoconnectConfig {
            enabled: true,
            min_rssi: -90,
            settle_seconds: 3,
            absence_seconds: 15,
            fallback_first_seconds: 20,
            fallback_interval_seconds: 45,
            fallback_minutes: 10,
        }
    }
}

/// `[ear]`: in-ear detection drives the local media players.
#[derive(Debug, Clone, Copy, PartialEq, Eq, Structural)]
pub struct EarConfig {
    /// Pause local players when a bud leaves an ear.
    pub auto_pause: bool,
    /// Resume the player that was paused, once the bud is back in and nothing
    /// else has touched playback meanwhile.
    pub auto_resume: bool,
    /// Pause as soon as one of two in-ear buds leaves. `false` waits for the
    /// last bud.
    pub pause_on_one_of_two: bool,
}

impl Default for EarConfig {
    fn default() -> (r: Self)
        ensures
            r == (EarConfig { auto_pause: true, auto_resume: true, pause_on_one_of_two: true }),
    {
        EarConfig { auto_pause: true, auto_resume: true, pause_on_one_of_two: true }
    }
}

/// Contents of `config.toml`. Every field is optional; a missing file is fine.
#[derive(Debug, Clone)]
pub struct Config {
    /// BD_ADDR to pin to, instead of auto-detecting.
    pub device: Option<String>,
    /// Which bud the primary byte of an ear-detection packet describes.
    pub primary_bud: PrimaryBud,
    /// Opt-in bounded BLE battery observation.
    pub ble: BleConfig,
    /// Apple multi-host switching.
    pub handoff: HandoffConfig,
    /// In-ear detection driving the local media players.
    pub ear: EarConfig,
    /// BLE proximity-triggered auto-connect.
    pub autoconnect: AutoconnectConfig,
}

impl Default for Config {
    fn default() -> (r: Self)
        ensures
            r.device is None,
            r.primary_bud == PrimaryBud::Auto,
            call_ensures(BleConfig::default, (), r.ble),
            call_ensures(HandoffConfig::default, (), r.handoff),
            call_ensures(EarConfig::default, (), r.ear),
            call_ensures(AutoconnectConfig::default, (), r.autoconnect),
    {
        Config {
            device: None,
            primary_bud: PrimaryBud::default(),
            ble: BleConfig::default(),
            handoff: HandoffConfig::default(),
            ear: EarConfig::default(),
            autoconnect: AutoconnectConfig::default(),
        }
    }
}

// ---------------------------------------------------------------------------
// Paths
// ---------------------------------------------------------------------------

/// A relative name below a directory, with one slash between them.
pub open spec fn joined_path(dir: Seq<char>, name: Seq<char>) -> Seq<char> {
    if dir.len() == 0 || dir.last() == '/' {
        dir + name
    } else {
        dir + "/"@ + name
    }
}

/// A relative name below a directory.
pub fn join_path(dir: &str, name: &str) -> (r: String)
    ensures
        r@ == joined_path(dir@, name@),
{
    let chars: Vec<char> = chars_of(dir);
    let mut out: String = dir.to_owned();
    if chars.len() > 0 && chars[chars.len() - 1] != '/' {
        out.append("/");
    }
    out.append(name);
    out
}

/// A variable that is set and not empty.
pub open spec fn usable(value: Option<&str>) -> bool {
    value matches Some(v) && v@.len() > 0
}

fn is_usable(value: Option<&str>) -> (r: bool)
    ensures
        r == usable(value),
{
    match value {
        Some(v) => chars_of(v).len() > 0,
        None => false,
    }
}

/// `$XDG_CONFIG_HOME/aurisd/config.toml`, else `$HOME/.config/...`, given the
/// values of those variables.
pub fn config_path(config_home: Option<&str>, home: Option<&str>) -> (r: Option<String>)
    ensures
        text_view(r) == (if usable(config_home) {
            Some(joined_path(config_home->0@, "aurisd/config.toml"@))
        } else if usable(home) {
            Some(joined_path(home->0@, ".config/aurisd/config.toml"@))
        } else {
            None
        }),
{
    if let Some(dir) = config_home {
        if is_usable(config_home) {
            return Some(join_path(dir, "aurisd/config.toml"));
        }
    }
    match home {
        Some(dir) => if is_usable(home) {
            Some(join_path(dir, ".config/aurisd/config.toml"))
        } else {
            None
        },
        None => None,
    }
}

/// Runtime directory: the `--runtime-dir` override if given, else
/// `$XDG_RUNTIME_DIR/aurisd`, else `/run/user/<uid>/aurisd`.
///
/// There is deliberately no `/tmp` fallback: a plugin only ever looks below
/// `$XDG_RUNTIME_DIR`, so a daemon that quietly relocated itself would look
/// alive while the widget stayed empty.
pub fn runtime_dir(override_dir: Option<&str>, runtime_home: Option<&str>, uid: u32) -> (r: String)
    ensures
        r@ == (match override_dir {
            Some(dir) => dir@,
            None => if usable(runtime_home) {
                joined_path(runtime_home->0@, "aurisd"@)
            } else {
                "/run/user/"@ + decimal(uid as nat) + "/aurisd"@
            },
        }),
{
    if let Some(dir) = override_dir {
        return dir.to_owned();
    }
    if let Some(dir) = runtime_home {
        if is_usable(runtime_home) {
            return join_path(dir, "aurisd");
        }
    }
    let mut out: String = "/run/user/".to_owned();
    push_decimal(&mut out, uid as u64);
    out.append("/aurisd");
    out
}

/// Why the runtime directory cannot be created below a parent that does not
/// exist. A missing parent means there is no runtime directory for this user
/// at all, which is a configuration fault worth reporting plainly.
pub fn missing_parent(parent: &str, dir: &str) -> (r: String)
    ensures
        r@ == parent@ + " does not exist, so "@ + dir@
            + " cannot be created. Set XDG_RUNTIME_DIR, or start aurisd from a logind user session that provides one."@,
{
    let mut out: String = parent.to_owned();
    out.append(" does not exist, so ");
    out.append(dir);
    out.append(
        " cannot be created. Set XDG_RUNTIME_DIR, or start aurisd from a logind user session that provides one.",
    );
    out
}

/// Path of the state file inside a runtime directory.
pub fn state_path(runtime_dir: &str) -> (r: String)
    ensures
        r@ == joined_path(runtime_dir@, "state.json"@),
{
    join_path(runtime_dir, "state.json")
}

/// Path of the control socket inside a runtime directory.
pub fn socket_path(runtime_dir: &str) -> (r: String)
    ensures
        r@ == joined_path(runtime_dir@, "ctl.sock"@),
{
    join_path(runtime_dir, "ctl.sock")
}

// ---------------------------------------------------------------------------
// Editing the file
// ---------------------------------------------------------------------------

/// Why a text is no TOML document, if it is none.
pub uninterp spec fn toml_fault(text: Seq<char>) -> Option<Seq<char>>;

/// Whether the TOML document has a top-level key.
pub uninterp spec fn toml_has(text: Seq<char>, key: Seq<char>) -> bool;

/// The TOML document with a new top-level table that holds one flag.
pub uninterp spec fn toml_with_table(
    text: Seq<char>,
    table: Seq<char>,
    key: Seq<char>,
    flag: bool,
) -> Option<Seq<char>>;

/// The TOML document with one flag set in a table that it has, if what it has
/// under that name is a table.
pub uninterp spec fn toml_with_flag(
    text: Seq<char>,
    table: Seq<char>,
    key: Seq<char>,
    flag: bool,
) -> Option<Seq<char>>;

/// `toml_edit`'s parser: the error in words.
#[verifier::external_body]
fn document_fault(text: &str) -> (r: Option<String>)
    ensures
        text_view(r) == toml_fault(text@),
{
    text.parse::<toml_edit::DocumentMut>().err().map(|e| e.to_string())
}

/// `toml_edit::Table::contains_key` on the parsed document; false where it
/// does not parse.
#[verifier::external_body]
fn document_has(text: &str, key: &str) -> (r: bool)
    ensures
        r == toml_has(text@, key@),
{
    text.parse::<toml_edit::DocumentMut>().is_ok_and(|doc| doc.contains_key(key))
}

/// `toml_edit::Table::insert` of a new table with one boolean into the parsed
/// document, written out again. `None` where the document does not parse.
#[verifier::external_body]
fn document_with_table(text: &str, table: &str, key: &str, flag: bool) -> (r: Option<String>)
    ensures
        text_view(r) == toml_with_table(text@, table@, key@, flag),
{
    let mut doc: toml_edit::DocumentMut = text.parse().ok()?;
    let mut added: toml_edit::Table = toml_edit::Table::new();
    added.insert(key, toml_edit::value(flag));
    doc.insert(table, toml_edit::Item::Table(added));
    Some(doc.to_string())
}

/// `toml_edit::TableLike::insert` of a boolean into a table of the parsed
/// document, written out again. `None` where the document does not parse, or
/// where `Item::as_table_like_mut` says that there is no such table.
#[verifier::external_body]
fn document_with_flag(text: &str, table: &str, key: &str, flag: bool) -> (r: Option<String>)
    ensures
        text_view(r) == toml_with_flag(text@, table@, key@, flag),
{
    let mut doc: toml_edit::DocumentMut = text.parse().ok()?;
    doc.get_mut(table)?.as_table_like_mut()?.insert(key, toml_edit::value(flag));
    Some(doc.to_string())
}

/// Why the handoff switch cannot be saved.
#[derive(Debug, Clone, PartialEq, Eq)]
pub enum EditError {
    /// The file is not valid TOML, in the parser's words.
    NotToml(String),
    /// `handoff` in it is not a table.
    NotATable,
}

/// An edit error with its text read as a sequence.
#[verifier::ext_equal]
pub enum EditErrorModel {
    /// See [`EditError::NotToml`].
    NotToml(Seq<char>),
    /// See [`EditError::NotATable`].
    NotATable,
}

impl View for EditError {
    type V = EditErrorModel;

    open spec fn view(&self) -> EditErrorModel {
        match *self {
            EditError::NotToml(e) => EditErrorModel::NotToml(e@),
            EditError::NotATable => EditErrorModel::NotATable,
        }
    }
}

/// What the edit comes to, given what the parser says of the file, whether it
/// has a `handoff` key, and the two ways to set the flag.
pub open spec fn edited(
    fault: Option<Seq<char>>,
    has: bool,
    with_table: Option<Seq<char>>,
    with_flag: Option<Seq<char>>,
) -> Result<Seq<char>, EditErrorModel> {
    match fault {
        Some(e) => Err(EditErrorModel::NotToml(e)),
        None => match if has {
            with_flag
        } else {
            with_table
        } {
            Some(text) => Ok(text),
            None => Err(EditErrorModel::NotATable),
        },
    }
}

/// The result of an edit, as mathematical values.
pub open spec fn edit_view(r: Result<String, EditError>) -> Result<Seq<char>, EditErrorModel> {
    match r {
        Ok(text) => Ok(text@),
        Err(e) => Err(e@),
    }
}

/// Decide the edit from what the parser and the two ways to set the flag came
/// to.
pub fn settle_edit(
    fault: Option<String>,
    has: bool,
    with_table: Option<String>,
    with_flag: Option<String>,
) -> (r: Result<String, EditError>)
    ensures
        edit_view(r) == edited(text_view(fault), has, text_view(with_table), text_view(with_flag)),
{
    match fault {
        Some(e) => Err(EditError::NotToml(e)),
        None => match if has {
            with_flag
        } else {
            with_table
        } {
            Some(text) => Ok(text),
            None => Err(EditError::NotATable),
        },
    }
}

/// The config file's text with `[handoff] enabled` set: in the table that is
/// there, or in a new one.
pub fn handoff_edited(text: &str, enabled: bool) -> (r: Result<String, EditError>)
    ensures
        edit_view(r) == edited(
            toml_fault(text@),
            toml_has(text@, "handoff"@),
            toml_with_table(text@, "handoff"@, "enabled"@, enabled),
            toml_with_flag(text@, "handoff"@, "enabled"@, enabled),
        ),
{
    settle_edit(
        document_fault(text),
        document_has(text, "handoff"),
        document_with_table(text, "handoff", "enabled", enabled),
        document_with_flag(text, "handoff", "enabled", enabled),
    )
}

} // verus!
