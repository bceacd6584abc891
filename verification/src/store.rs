//! The published state, and the changes to it.
use crate::aap::codec::{BatteryComponent, BatteryEntry, Metadata};
use crate::address::Address;
use crate::config::PrimaryBud;
use crate::models::{known_model, lookup_key, model_name};
use crate::settings::SettingCommand;
use crate::state::{
    Battery, BatteryModel, Cell, CellModel, Daemon, DeviceModel, Ear, EarState, Handoff, Link,
    LinkModel, LinkReason, LinkStatus, NoiseControl, NoiseControlMode, Settings, Snapshot,
    SnapshotModel, Source, NAME_KEY,
};
use crate::text::same_text;
use vstd::prelude::*;
use vstd::string::*;

verus! {

/// A reconnect sequence as it is published.
#[derive(Debug, PartialEq, Eq)]
pub struct LinkActivity {
    /// Why it runs.
    pub reason: LinkReason,
    /// Connects started in it.
    pub attempt: u32,
    /// When it began, in UTC.
    pub since: String,
}

impl Clone for LinkActivity {
    fn clone(&self) -> (r: Self)
        ensures
            r == *self,
    {
        LinkActivity { reason: self.reason, attempt: self.attempt, since: self.since.clone() }
    }
}

/// Two sequences are published alike.
pub open spec fn same_activity(a: Option<LinkActivity>, b: Option<LinkActivity>) -> bool {
    match (a, b) {
        (Some(x), Some(y)) => x.reason == y.reason && x.attempt == y.attempt && x.since@
            == y.since@,
        (None, None) => true,
        _ => false,
    }
}

/// Whether two sequences are published alike.
pub fn is_same_activity(a: &Option<LinkActivity>, b: &Option<LinkActivity>) -> (r: bool)
    ensures
        r == same_activity(*a, *b),
{
    match (a, b) {
        (Some(x), Some(y)) => x.reason == y.reason && x.attempt == y.attempt && same_text(
            x.since.as_str(),
            y.since.as_str(),
        ),
        (None, None) => true,
        _ => false,
    }
}

/// One change to the published state.
#[derive(Debug, Clone, PartialEq, Eq)]
pub enum Update {
    /// The classic link is up or down.
    AclConnected(bool),
    /// The AAP link is up or down.
    AapLink(bool),
    /// Which accessory this is.
    Identity {
        /// Its address.
        address: Address,
        /// Its name, if known.
        name: Option<String>,
        /// Its product id, if known.
        model_id: Option<String>,
    },
    /// Battery levels.
    Battery(Vec<BatteryEntry>),
    /// Battery levels heard in an advert.
    BleBattery {
        /// The accessory they are about.
        address: String,
        /// The levels.
        entries: Vec<BatteryEntry>,
    },
    /// Levels heard in adverts before this time are no longer fresh.
    ExpireBle {
        /// A timestamp.
        before: String,
    },
    /// In-ear detection, in wire order.
    Ear {
        /// Primary bud.
        primary: EarState,
        /// Secondary bud.
        secondary: EarState,
    },
    /// Noise control mode.
    NoiseControl(NoiseControlMode),
    /// Conversational awareness.
    ConversationalAwareness(bool),
    /// Adaptive transparency level.
    AdaptiveLevel(u8),
    /// A setting the accessory reported.
    Setting(SettingCommand),
    /// A setting that was sent and is to be read back.
    SettingRequested(SettingCommand),
    /// A name that was sent and is to be read back.
    RenameRequested(String),
    /// Device metadata.
    Metadata(Metadata),
    /// The link is being reopened to read settings back.
    VerifyReopening,
    /// The settings dump ended: judge what was written.
    VerifyCompleted,
    /// No readback could be completed.
    VerifyFailed,
    /// The reconnect sequence under way, if any.
    Link(Option<LinkActivity>),
    /// The handoff section.
    Handoff(Handoff),
}

// ---------------------------------------------------------------------------
// Battery
// ---------------------------------------------------------------------------

/// The moment an RFC 3339 timestamp names, in microseconds since the epoch.
pub uninterp spec fn rfc3339_micros(text: Seq<char>) -> Option<i64>;

/// `chrono::DateTime::parse_from_rfc3339` and `timestamp_micros`. The result is
/// a function of the text.
#[verifier::external_body]
fn micros_of(text: &str) -> (r: Option<i64>)
    ensures
        r == rfc3339_micros(text@),
{
    chrono::DateTime::parse_from_rfc3339(text).ok().map(|t| t.timestamp_micros())
}

/// A cell after one of its entries was heard at `stamp`. What it last reported
/// stays known when an entry carries no level.
pub open spec fn cell_heard(c: CellModel, e: BatteryEntry, stamp: Seq<char>) -> CellModel {
    let live = CellModel { present: e.present, charging: e.charging, ..c };
    if e.level is Some {
        CellModel {
            level: e.level,
            last_known_charging: Some(e.charging),
            fresh: true,
            last_seen: Some(stamp),
            ..live
        }
    } else {
        live
    }
}

/// The battery after one entry was heard. A level makes it current again.
pub open spec fn entry_heard(b: BatteryModel, e: BatteryEntry, stamp: Seq<char>) -> BatteryModel {
    let stale = if e.level is Some {
        false
    } else {
        b.stale
    };
    match e.component {
        BatteryComponent::Left => BatteryModel {
            left: cell_heard(b.left, e, stamp),
            stale,
            ..b
        },
        BatteryComponent::Right => BatteryModel {
            right: cell_heard(b.right, e, stamp),
            stale,
            ..b
        },
        BatteryComponent::Case => BatteryModel {
            case: cell_heard(b.case, e, stamp),
            stale,
            ..b
        },
        BatteryComponent::Other(_) => b,
    }
}

/// The battery after entries were heard, in order.
pub open spec fn battery_heard(
    b: BatteryModel,
    entries: Seq<BatteryEntry>,
    stamp: Seq<char>,
) -> BatteryModel
    decreases entries.len(),
{
    if entries.len() == 0 {
        b
    } else {
        entry_heard(battery_heard(b, entries.drop_last(), stamp), entries.last(), stamp)
    }
}

/// A cell that no longer reports; what it last said stays known.
pub open spec fn cell_dimmed(c: CellModel) -> CellModel {
    CellModel { present: false, fresh: false, charging: false, ..c }
}

/// The battery without a link: everything is history.
pub open spec fn battery_dimmed(b: BatteryModel) -> BatteryModel {
    BatteryModel {
        stale: true,
        left: cell_dimmed(b.left),
        right: cell_dimmed(b.right),
        case: cell_dimmed(b.case),
    }
}

/// A reading was heard before the limit, or never.
pub open spec fn too_old(seen: Option<Seq<char>>, before: Seq<char>) -> bool {
    let at = match seen {
        Some(text) => rfc3339_micros(text),
        None => None,
    };
    match (at, rfc3339_micros(before)) {
        (Some(a), Some(b)) => a < b,
        (None, Some(_)) => true,
        (_, None) => false,
    }
}

/// A cell once readings from before the limit have expired.
pub open spec fn cell_expired(c: CellModel, before: Seq<char>) -> CellModel {
    if too_old(c.last_seen, before) {
        cell_dimmed(c)
    } else {
        c
    }
}

/// The battery once readings from before the limit have expired.
pub open spec fn battery_expired(b: BatteryModel, before: Seq<char>) -> BatteryModel {
    let left = cell_expired(b.left, before);
    let right = cell_expired(b.right, before);
    let case = cell_expired(b.case, before);
    BatteryModel { stale: !(left.fresh || right.fresh || case.fresh), left, right, case }
}

fn hear_cell(cell: &mut Cell, entry: &BatteryEntry, stamp: &str)
    ensures
        final(cell)@ == cell_heard(old(cell)@, *entry, stamp@),
{
    cell.present = entry.present;
    cell.charging = entry.charging;
    if entry.level.is_some() {
        cell.level = entry.level;
        cell.last_known_charging = Some(entry.charging);
        cell.fresh = true;
        cell.last_seen = Some(stamp.to_owned());
    }
}

fn hear(battery: &mut Battery, entries: &Vec<BatteryEntry>, stamp: &str)
    ensures
        final(battery)@ == battery_heard(old(battery)@, entries@, stamp@),
{
    let ghost before = battery@;
    let mut i: usize = 0;
    proof {
        assert(entries@.take(0) =~= Seq::empty());
    }
    while i < entries.len()
        invariant
            i <= entries@.len(),
            battery@ == battery_heard(before, entries@.take(i as int), stamp@),
        decreases entries@.len() - i,
    {
        proof {
            let next = entries@.take(i + 1);
            assert(next.drop_last() =~= entries@.take(i as int));
            assert(next.last() == entries@[i as int]);
        }
        let entry = &entries[i];
        match entry.component {
            BatteryComponent::Left => {
                hear_cell(&mut battery.left, entry, stamp);
            },
            BatteryComponent::Right => {
                hear_cell(&mut battery.right, entry, stamp);
            },
            BatteryComponent::Case => {
                hear_cell(&mut battery.case, entry, stamp);
            },
            BatteryComponent::Other(_) => {},
        }
        let known = match entry.component {
            BatteryComponent::Other(_) => false,
            _ => true,
        };
        if known && entry.level.is_some() {
            battery.stale = false;
        }
        i = i + 1;
    }
    proof {
        assert(entries@.take(i as int) =~= entries@);
    }
}

fn dim_cell(cell: &mut Cell)
    ensures
        final(cell)@ == cell_dimmed(old(cell)@),
{
    cell.present = false;
    cell.fresh = false;
    cell.charging = false;
}

fn dim(battery: &mut Battery)
    ensures
        final(battery)@ == battery_dimmed(old(battery)@),
{
    dim_cell(&mut battery.left);
    dim_cell(&mut battery.right);
    dim_cell(&mut battery.case);
    battery.stale = true;
}

fn expire_cell(cell: &mut Cell, before: &str)
    ensures
        final(cell)@ == cell_expired(old(cell)@, before@),
{
    let at: Option<i64> = match &cell.last_seen {
        Some(text) => micros_of(text.as_str()),
        None => None,
    };
    let old_reading = match (at, micros_of(before)) {
        (Some(a), Some(b)) => a < b,
        (None, Some(_)) => true,
        (_, None) => false,
    };
    if old_reading {
        dim_cell(cell);
    }
}

fn expire(battery: &mut Battery, before: &str)
    ensures
        final(battery)@ == battery_expired(old(battery)@, before@),
{
    expire_cell(&mut battery.left, before);
    expire_cell(&mut battery.right, before);
    expire_cell(&mut battery.case, before);
    battery.stale = !(battery.left.fresh || battery.right.fresh || battery.case.fresh);
}

// ---------------------------------------------------------------------------
// Writes that are read back
// ---------------------------------------------------------------------------

/// What was written.
#[derive(Debug, Clone, PartialEq, Eq)]
pub enum Wanted {
    /// A setting.
    Setting(SettingCommand),
    /// The accessory's name.
    Name(String),
}

impl Wanted {
    /// The key the write is verified under.
    pub open spec fn key_text(self) -> Seq<char> {
        match self {
            Wanted::Setting(setting) => setting@.key(),
            Wanted::Name(_) => NAME_KEY@,
        }
    }

    /// The key the write is verified under.
    pub fn key(&self) -> (r: &'static str)
        ensures
            r@ == self.key_text(),
    {
        match self {
            Wanted::Setting(setting) => setting.key(),
            Wanted::Name(_) => NAME_KEY,
        }
    }
}

/// A write whose readback is awaited.
#[derive(Debug, Clone, PartialEq, Eq)]
pub struct Write {
    /// What was written.
    pub wanted: Wanted,
    /// The accessory reported the key since.
    pub heard: bool,
}

/// Two lists hold the same modes. The accessory reports a list in its own
/// order.
pub open spec fn same_modes(a: Seq<NoiseControlMode>, b: Seq<NoiseControlMode>) -> bool {
    forall|m: NoiseControlMode| #[trigger] a.contains(m) <==> b.contains(m)
}

/// The published state says what was written.
pub open spec fn kept(wanted: Wanted, s: SnapshotModel) -> bool {
    match wanted {
        Wanted::Setting(SettingCommand::Microphone(v)) => s.settings.microphone == Some(v),
        Wanted::Setting(SettingCommand::PressSpeed(v)) => s.settings.press_speed == Some(v),
        Wanted::Setting(SettingCommand::HoldDuration(v)) => s.settings.hold_duration == Some(v),
        Wanted::Setting(
            SettingCommand::ListeningModeCycle(v),
        ) => s.settings.listening_mode_cycle matches Some(reported) && same_modes(reported@, v@),
        Wanted::Setting(SettingCommand::CallControls(v)) => s.settings.call_controls == Some(v),
        Wanted::Setting(
            SettingCommand::PersonalizedVolume(v),
        ) => s.settings.personalized_volume == Some(v),
        Wanted::Name(name) => s.device.name == name@,
    }
}

/// How a readback ends for one write. Only a finished dump says anything of
/// it: what was written, something else, or nothing.
pub open spec fn verdict(w: Write, s: SnapshotModel, completed: bool) -> Seq<char> {
    if !completed {
        "unverified"@
    } else if !w.heard {
        "unreported"@
    } else if kept(w.wanted, s) {
        "confirmed"@
    } else {
        "mismatch"@
    }
}

/// The statuses once every write got its verdict.
pub open spec fn judged(
    status: Map<Seq<char>, Seq<char>>,
    writes: Seq<Write>,
    s: SnapshotModel,
    completed: bool,
) -> Map<Seq<char>, Seq<char>>
    decreases writes.len(),
{
    if writes.len() == 0 {
        status
    } else {
        judged(status, writes.drop_last(), s, completed).insert(
            writes.last().wanted.key_text(),
            verdict(writes.last(), s, completed),
        )
    }
}

/// The writes of other keys.
pub open spec fn others(writes: Seq<Write>, key: Seq<char>) -> Seq<Write>
    decreases writes.len(),
{
    if writes.len() == 0 {
        Seq::empty()
    } else {
        let head = others(writes.drop_last(), key);
        if writes.last().wanted.key_text() == key {
            head
        } else {
            head.push(writes.last())
        }
    }
}

/// The write of a key was heard of.
pub open spec fn reported_of(writes: Seq<Write>, key: Seq<char>) -> Seq<Write> {
    writes.map_values(
        |w: Write|
            Write { heard: w.heard || w.wanted.key_text() == key, ..w },
    )
}

proof fn others_of_removed(writes: Seq<Write>, key: Seq<char>, at: int)
    requires
        0 <= at < writes.len(),
        writes[at].wanted.key_text() == key,
    ensures
        others(writes.remove(at), key) == others(writes, key),
    decreases writes.len(),
{
    let less = writes.remove(at);
    if at == writes.len() - 1 {
        assert(less =~= writes.drop_last());
    } else {
        assert(less.drop_last() =~= writes.drop_last().remove(at));
        assert(less.last() == writes.last());
        assert(writes.drop_last()[at] == writes[at]);
        others_of_removed(writes.drop_last(), key, at);
    }
}

proof fn others_of_none(writes: Seq<Write>, key: Seq<char>)
    requires
        forall|i: int| 0 <= i < writes.len() ==> (#[trigger] writes[i]).wanted.key_text() != key,
    ensures
        others(writes, key) == writes,
    decreases writes.len(),
{
    if writes.len() > 0 {
        let head = writes.drop_last();
        assert forall|i: int| 0 <= i < head.len() implies (
        #[trigger] head[i]).wanted.key_text() != key by {
            assert(head[i] == writes[i]);
        }
        others_of_none(head, key);
        assert(head.push(writes.last()) =~= writes);
    }
}

fn forget_writes(writes: &mut Vec<Write>, key: &str)
    ensures
        final(writes)@ == others(old(writes)@, key@),
{
    let mut i: usize = 0;
    while i < writes.len()
        invariant
            i <= writes@.len(),
            others(writes@, key@) == others(old(writes)@, key@),
            forall|k: int| 0 <= k < i ==> (#[trigger] writes@[k]).wanted.key_text() != key@,
        decreases writes@.len() - i,
    {
        if same_text(writes[i].wanted.key(), key) {
            proof {
                others_of_removed(writes@, key@, i as int);
            }
            writes.remove(i);
        } else {
            i = i + 1;
        }
    }
    proof {
        others_of_none(writes@, key@);
    }
}

fn note_report(writes: &mut Vec<Write>, key: &str)
    ensures
        final(writes)@ == reported_of(old(writes)@, key@),
{
    let ghost before = writes@;
    let mut i: usize = 0;
    while i < writes.len()
        invariant
            i <= writes@.len(),
            writes@.len() == before.len(),
            forall|k: int| 0 <= k < i ==> writes@[k] == reported_of(before, key@)[k],
            forall|k: int| i <= k < writes@.len() ==> writes@[k] == before[k],
        decreases writes@.len() - i,
    {
        if same_text(writes[i].wanted.key(), key) {
            writes[i].heard = true;
        }
        i = i + 1;
    }
    proof {
        assert(writes@ =~= reported_of(before, key@));
    }
}

fn await_reports(writes: &mut Vec<Write>)
    ensures
        final(writes)@ == old(writes)@.map_values(|w: Write| Write { heard: false, ..w }),
{
    let ghost before = writes@;
    let mut i: usize = 0;
    while i < writes.len()
        invariant
            i <= writes@.len(),
            writes@.len() == before.len(),
            forall|k: int| 0 <= k < i ==> writes@[k] == (Write { heard: false, ..before[k] }),
            forall|k: int| i <= k < writes@.len() ==> writes@[k] == before[k],
        decreases writes@.len() - i,
    {
        writes[i].heard = false;
        i = i + 1;
    }
    proof {
        assert(writes@ =~= before.map_values(|w: Write| Write { heard: false, ..w }));
    }
}

fn has_mode(modes: &Vec<NoiseControlMode>, mode: NoiseControlMode) -> (r: bool)
    ensures
        r == modes@.contains(mode),
{
    let mut i: usize = 0;
    while i < modes.len()
        invariant
            i <= modes@.len(),
            forall|k: int| 0 <= k < i ==> modes@[k] != mode,
        decreases modes@.len() - i,
    {
        if modes[i] == mode {
            assert(modes@[i as int] == mode);
            return true;
        }
        i = i + 1;
    }
    false
}

fn are_same_modes(a: &Vec<NoiseControlMode>, b: &Vec<NoiseControlMode>) -> (r: bool)
    ensures
        r == same_modes(a@, b@),
{
    let off = has_mode(a, NoiseControlMode::Off) == has_mode(b, NoiseControlMode::Off);
    let anc = has_mode(a, NoiseControlMode::Anc) == has_mode(b, NoiseControlMode::Anc);
    let open = has_mode(a, NoiseControlMode::Transparency) == has_mode(
        b,
        NoiseControlMode::Transparency,
    );
    let blend = has_mode(a, NoiseControlMode::Adaptive) == has_mode(b, NoiseControlMode::Adaptive);
    let same = off && anc && open && blend;
    proof {
        assert forall|m: NoiseControlMode| same implies (#[trigger] a@.contains(m) <==> b@.contains(
            m,
        )) by {
            match m {
                NoiseControlMode::Off => {},
                NoiseControlMode::Anc => {},
                NoiseControlMode::Transparency => {},
                NoiseControlMode::Adaptive => {},
            }
        }
        if same_modes(a@, b@) {
            assert(a@.contains(NoiseControlMode::Off) <==> b@.contains(NoiseControlMode::Off));
            assert(a@.contains(NoiseControlMode::Anc) <==> b@.contains(NoiseControlMode::Anc));
            assert(a@.contains(NoiseControlMode::Transparency) <==> b@.contains(
                NoiseControlMode::Transparency,
            ));
            assert(a@.contains(NoiseControlMode::Adaptive) <==> b@.contains(
                NoiseControlMode::Adaptive,
            ));
        }
    }
    same
}

fn is_kept(wanted: &Wanted, s: &Snapshot) -> (r: bool)
    ensures
        r == kept(*wanted, s@),
{
    match wanted {
        Wanted::Setting(SettingCommand::Microphone(v)) => s.settings.microphone == Some(*v),
        Wanted::Setting(SettingCommand::PressSpeed(v)) => s.settings.press_speed == Some(*v),
        Wanted::Setting(SettingCommand::HoldDuration(v)) => s.settings.hold_duration == Some(*v),
        Wanted::Setting(SettingCommand::ListeningModeCycle(v)) => match &s.settings.listening_mode_cycle {
            Some(reported) => are_same_modes(reported, v),
            None => false,
        },
        Wanted::Setting(SettingCommand::CallControls(v)) => s.settings.call_controls == Some(*v),
        Wanted::Setting(
            SettingCommand::PersonalizedVolume(v),
        ) => s.settings.personalized_volume == Some(*v),
        Wanted::Name(name) => same_text(s.device.name.as_str(), name.as_str()),
    }
}

fn judge(w: &Write, s: &Snapshot, completed: bool) -> (r: &'static str)
    ensures
        r@ == verdict(*w, s@, completed),
{
    if !completed {
        "unverified"
    } else if !w.heard {
        "unreported"
    } else if is_kept(&w.wanted, s) {
        "confirmed"
    } else {
        "mismatch"
    }
}

// ---------------------------------------------------------------------------
// The store
// ---------------------------------------------------------------------------

/// The link section: a live link always outranks a reconnect sequence that has
/// not been retired yet.
pub open spec fn shown_link(connected: bool, activity: Option<LinkActivity>) -> LinkModel {
    if connected {
        LinkModel { status: LinkStatus::Connected, reason: None, attempt: 0, since: None }
    } else {
        match activity {
            Some(a) => LinkModel {
                status: LinkStatus::Reconnecting,
                reason: Some(a.reason),
                attempt: a.attempt,
                since: Some(a.since@),
            },
            None => LinkModel {
                status: LinkStatus::Disconnected,
                reason: None,
                attempt: 0,
                since: None,
            },
        }
    }
}

fn show_link(connected: bool, activity: &Option<LinkActivity>) -> (r: Link)
    ensures
        r@ == shown_link(connected, *activity),
{
    if connected {
        return Link { status: LinkStatus::Connected, reason: None, attempt: 0, since: None };
    }
    match activity {
        Some(a) => Link {
            status: LinkStatus::Reconnecting,
            reason: Some(a.reason),
            attempt: a.attempt,
            since: Some(a.since.clone()),
        },
        None => Link { status: LinkStatus::Disconnected, reason: None, attempt: 0, since: None },
    }
}

/// Which side each bud is on. Whichever bud is doing the work is primary; the
/// other one charges.
pub open spec fn sided(b: BatteryModel, bud: PrimaryBud, primary: EarState, other: EarState) -> Ear {
    let right_first = match bud {
        PrimaryBud::Left => false,
        PrimaryBud::Right => true,
        PrimaryBud::Auto => b.left.charging && b.right.present && !b.right.charging,
    };
    if right_first {
        Ear { left: other, right: primary }
    } else {
        Ear { left: primary, right: other }
    }
}

fn sides(b: &Battery, bud: PrimaryBud, primary: EarState, other: EarState) -> (r: Ear)
    ensures
        r == sided(b@, bud, primary, other),
{
    let right_first = match bud {
        PrimaryBud::Left => false,
        PrimaryBud::Right => true,
        PrimaryBud::Auto => b.left.charging && b.right.present && !b.right.charging,
    };
    if right_first {
        Ear { left: other, right: primary }
    } else {
        Ear { left: primary, right: other }
    }
}

/// A mode as it is published.
pub open spec fn published_mode(mode: NoiseControlMode) -> NoiseControl {
    match mode {
        NoiseControlMode::Off => NoiseControl::Off,
        NoiseControlMode::Anc => NoiseControl::Anc,
        NoiseControlMode::Transparency => NoiseControl::Transparency,
        NoiseControlMode::Adaptive => NoiseControl::Adaptive,
    }
}

fn publish_mode(mode: NoiseControlMode) -> (r: NoiseControl)
    ensures
        r == published_mode(mode),
{
    match mode {
        NoiseControlMode::Off => NoiseControl::Off,
        NoiseControlMode::Anc => NoiseControl::Anc,
        NoiseControlMode::Transparency => NoiseControl::Transparency,
        NoiseControlMode::Adaptive => NoiseControl::Adaptive,
    }
}

/// The settings after one was reported.
pub open spec fn with_setting(s: Settings, setting: SettingCommand) -> Settings {
    match setting {
        SettingCommand::Microphone(v) => Settings { microphone: Some(v), ..s },
        SettingCommand::PressSpeed(v) => Settings { press_speed: Some(v), ..s },
        SettingCommand::HoldDuration(v) => Settings { hold_duration: Some(v), ..s },
        SettingCommand::ListeningModeCycle(v) => Settings { listening_mode_cycle: Some(v), ..s },
        SettingCommand::CallControls(v) => Settings { call_controls: Some(v), ..s },
        SettingCommand::PersonalizedVolume(v) => Settings { personalized_volume: Some(v), ..s },
    }
}

/// The store as mathematical values.
#[verifier::ext_equal]
pub struct StoreModel {
    /// What is published.
    pub shown: SnapshotModel,
    /// Writes whose readback is awaited.
    pub writes: Seq<Write>,
    /// The reconnect sequence under way.
    pub activity: Option<LinkActivity>,
    /// Which bud is primary.
    pub bud: PrimaryBud,
}

impl StoreModel {
    /// A write went out: its readback is awaited.
    pub open spec fn wrote(self, wanted: Wanted) -> StoreModel {
        let key = wanted.key_text();
        StoreModel {
            shown: SnapshotModel {
                settings_status: self.shown.settings_status.insert(key, "verifying"@),
                settings_verify: "verifying"@,
                ..self.shown
            },
            writes: others(self.writes, key).push(Write { wanted, heard: false }),
            ..self
        }
    }

    /// The readback ended.
    pub open spec fn settled(self, completed: bool) -> StoreModel {
        StoreModel {
            shown: SnapshotModel {
                settings_status: judged(
                    self.shown.settings_status,
                    self.writes,
                    self.shown,
                    completed,
                ),
                settings_verify: "idle"@,
                verify_reopen: false,
                ..self.shown
            },
            writes: Seq::empty(),
            ..self
        }
    }

    /// One change, heard at `stamp`.
    pub open spec fn applied(self, update: Update, stamp: Seq<char>) -> StoreModel {
        let s = self.shown;
        match update {
            Update::AclConnected(connected) => StoreModel {
                shown: SnapshotModel {
                    device: DeviceModel { connected, ..s.device },
                    link: shown_link(connected, self.activity),
                    ..s
                },
                ..self
            },
            Update::AapLink(up) => StoreModel {
                shown: SnapshotModel {
                    device: DeviceModel { aap_link: up, ..s.device },
                    daemon: (Daemon { source: if up {
                        Source::Aap
                    } else {
                        Source::Nowhere
                    } }),
                    battery: if up {
                        s.battery
                    } else {
                        battery_dimmed(s.battery)
                    },
                    ..s
                },
                ..self
            },
            Update::Identity { address, name, model_id } => StoreModel {
                shown: SnapshotModel {
                    device: DeviceModel {
                        address: address.text(),
                        name: match name {
                            Some(n) => n@,
                            None => s.device.name,
                        },
                        model: match model_id {
                            Some(id) => known_model(lookup_key(id@)),
                            None => s.device.model,
                        },
                        model_id: match model_id {
                            Some(id) => id@,
                            None => s.device.model_id,
                        },
                        ..s.device
                    },
                    ..s
                },
                ..self
            },
            Update::Battery(entries) => StoreModel {
                shown: SnapshotModel {
                    battery: battery_heard(s.battery, entries@, stamp),
                    ..s
                },
                ..self
            },
            Update::BleBattery { address, entries } => if address@ == s.device.address {
                StoreModel {
                    shown: SnapshotModel {
                        battery: battery_heard(s.battery, entries@, stamp),
                        daemon: (Daemon { source: if s.device.aap_link {
                            s.daemon.source
                        } else {
                            Source::Ble
                        } }),
                        ..s
                    },
                    ..self
                }
            } else {
                self
            },
            Update::ExpireBle { before } => if s.daemon.source == Source::Ble {
                let battery = battery_expired(s.battery, before@);
                StoreModel {
                    shown: SnapshotModel {
                        battery,
                        daemon: (Daemon { source: if battery.stale {
                            Source::Nowhere
                        } else {
                            Source::Ble
                        } }),
                        ..s
                    },
                    ..self
                }
            } else {
                self
            },
            Update::Ear { primary, secondary } => StoreModel {
                shown: SnapshotModel {
                    ear: sided(s.battery, self.bud, primary, secondary),
                    ..s
                },
                ..self
            },
            Update::NoiseControl(mode) => StoreModel {
                shown: SnapshotModel { noise_control: published_mode(mode), ..s },
                ..self
            },
            Update::ConversationalAwareness(on) => StoreModel {
                shown: SnapshotModel { conversational_awareness: Some(on), ..s },
                ..self
            },
            Update::AdaptiveLevel(level) => StoreModel {
                shown: SnapshotModel { adaptive_level: Some(level), ..s },
                ..self
            },
            Update::Setting(setting) => StoreModel {
                shown: SnapshotModel { settings: with_setting(s.settings, setting), ..s },
                writes: reported_of(self.writes, setting@.key()),
                ..self
            },
            Update::SettingRequested(setting) => self.wrote(Wanted::Setting(setting)),
            Update::RenameRequested(name) => self.wrote(Wanted::Name(name)),
            Update::Metadata(metadata) => match metadata.name {
                Some(name) => StoreModel {
                    shown: SnapshotModel {
                        device: DeviceModel { name: name@, ..s.device },
                        ..s
                    },
                    writes: reported_of(self.writes, NAME_KEY@),
                    ..self
                },
                None => self,
            },
            Update::VerifyReopening => StoreModel {
                shown: SnapshotModel { verify_reopen: true, ..s },
                writes: self.writes.map_values(|w: Write| Write { heard: false, ..w }),
                ..self
            },
            Update::VerifyCompleted => self.settled(true),
            Update::VerifyFailed => self.settled(false),
            Update::Link(activity) => StoreModel {
                shown: SnapshotModel { link: shown_link(s.device.connected, activity), ..s },
                activity,
                ..self
            },
            Update::Handoff(view) => StoreModel {
                shown: SnapshotModel { handoff: view, ..s },
                ..self
            },
        }
    }
}

/// Which accessory was selected, and over which link, when a command was
/// queued.
#[derive(Debug, Clone, PartialEq, Eq)]
pub struct ConnectionContext {
    /// The accessory's address.
    pub address: String,
    /// The classic link was up.
    pub connected: bool,
    /// The AAP link was up.
    pub aap_link: bool,
}

/// Two contexts refer to the same accessory over the same link.
pub open spec fn same_context(a: ConnectionContext, b: ConnectionContext) -> bool {
    a.address@ == b.address@ && a.connected == b.connected && a.aap_link == b.aap_link
}

impl ConnectionContext {
    /// Whether both refer to the same accessory over the same link.
    pub fn is_same(&self, other: &ConnectionContext) -> (r: bool)
        ensures
            r == same_context(*self, *other),
    {
        same_text(self.address.as_str(), other.address.as_str()) && self.connected
            == other.connected && self.aap_link == other.aap_link
    }
}

/// What is published, and what is needed to change it.
#[derive(Debug)]
pub struct Store {
    shown: Snapshot,
    writes: Vec<Write>,
    activity: Option<LinkActivity>,
    bud: PrimaryBud,
}

impl Store {
    /// The store as mathematical values.
    pub closed spec fn model(self) -> StoreModel {
        StoreModel {
            shown: self.shown@,
            writes: self.writes@,
            activity: self.activity,
            bud: self.bud,
        }
    }

    /// Publish `initial` first.
    pub fn new(initial: Snapshot, primary_bud: PrimaryBud) -> (r: Self)
        ensures
            r.model() == (StoreModel {
                shown: initial@,
                writes: Seq::empty(),
                activity: None,
                bud: primary_bud,
            }),
    {
        let r = Store { shown: initial, writes: Vec::new(), activity: None, bud: primary_bud };
        proof {
            assert(r.writes@ =~= Seq::empty());
        }
        r
    }

    /// What is published.
    pub fn snapshot(&self) -> (r: &Snapshot)
        ensures
            r@ == self.model().shown,
    {
        &self.shown
    }

    /// What a command queued now refers to.
    pub fn connection_context(&self) -> (r: ConnectionContext)
        ensures
            r.address@ == self.model().shown.device.address,
            r.connected == self.model().shown.device.connected,
            r.aap_link == self.model().shown.device.aap_link,
    {
        ConnectionContext {
            address: self.shown.device.address.clone(),
            connected: self.shown.device.connected,
            aap_link: self.shown.device.aap_link,
        }
    }

    fn await_write(&mut self, wanted: Wanted)
        ensures
            final(self).model() == old(self).model().wrote(wanted),
    {
        let key: &'static str = wanted.key();
        forget_writes(&mut self.writes, key);
        self.shown.settings_status.insert(key.to_owned(), "verifying".to_owned());
        self.shown.settings_verify = "verifying".to_owned();
        self.writes.push(Write { wanted, heard: false });
    }

    fn settle(&mut self, completed: bool)
        ensures
            final(self).model() == old(self).model().settled(completed),
    {
        let ghost before = self.model();
        let mut i: usize = 0;
        proof {
            assert(before.writes.take(0) =~= Seq::empty());
        }
        while i < self.writes.len()
            invariant
                i <= self.writes@.len(),
                self.writes@ == before.writes,
                self.activity == before.activity,
                self.bud == before.bud,
                self.shown@ == (SnapshotModel {
                    settings_status: judged(
                        before.shown.settings_status,
                        before.writes.take(i as int),
                        before.shown,
                        completed,
                    ),
                    ..before.shown
                }),
            decreases self.writes@.len() - i,
        {
            proof {
                let next = before.writes.take(i + 1);
                assert(next.drop_last() =~= before.writes.take(i as int));
                assert(next.last() == before.writes[i as int]);
            }
            let word: &'static str = judge(&self.writes[i], &self.shown, completed);
            let key: &'static str = self.writes[i].wanted.key();
            self.shown.settings_status.insert(key.to_owned(), word.to_owned());
            i = i + 1;
        }
        proof {
            assert(before.writes.take(i as int) =~= before.writes);
        }
        self.writes = Vec::new();
        self.shown.settings_verify = "idle".to_owned();
        self.shown.verify_reopen = false;
        proof {
            assert(self.writes@ =~= Seq::empty());
        }
    }

    fn report_setting(&mut self, setting: SettingCommand)
        ensures
            final(self).model() == old(self).model().applied(
                Update::Setting(setting),
                Seq::empty(),
            ),
    {
        note_report(&mut self.writes, setting.key());
        match setting {
            SettingCommand::Microphone(v) => {
                self.shown.settings.microphone = Some(v);
            },
            SettingCommand::PressSpeed(v) => {
                self.shown.settings.press_speed = Some(v);
            },
            SettingCommand::HoldDuration(v) => {
                self.shown.settings.hold_duration = Some(v);
            },
            SettingCommand::ListeningModeCycle(v) => {
                self.shown.settings.listening_mode_cycle = Some(v);
            },
            SettingCommand::CallControls(v) => {
                self.shown.settings.call_controls = Some(v);
            },
            SettingCommand::PersonalizedVolume(v) => {
                self.shown.settings.personalized_volume = Some(v);
            },
        }
    }

    fn identify(&mut self, address: Address, name: Option<String>, model_id: Option<String>)
        ensures
            final(self).model() == old(self).model().applied(
                Update::Identity { address, name, model_id },
                Seq::empty(),
            ),
    {
        self.shown.device.address = address.to_string();
        if let Some(n) = name {
            self.shown.device.name = n;
        }
        if let Some(id) = model_id {
            self.shown.device.model = match model_name(id.as_str()) {
                Some(known) => Some(known.to_owned()),
                None => None,
            };
            self.shown.device.model_id = id;
        }
    }

    fn set_link(&mut self, up: bool)
        ensures
            final(self).model() == old(self).model().applied(Update::AapLink(up), Seq::empty()),
    {
        self.shown.device.aap_link = up;
        self.shown.daemon.source = if up {
            Source::Aap
        } else {
            Source::Nowhere
        };
        if !up {
            dim(&mut self.shown.battery);
        }
    }

    fn hear_advert(&mut self, address: String, entries: Vec<BatteryEntry>, stamp: &str)
        ensures
            final(self).model() == old(self).model().applied(
                Update::BleBattery { address, entries },
                stamp@,
            ),
    {
        if same_text(address.as_str(), self.shown.device.address.as_str()) {
            hear(&mut self.shown.battery, &entries, stamp);
            if !self.shown.device.aap_link {
                self.shown.daemon.source = Source::Ble;
            }
        }
    }

    fn expire_adverts(&mut self, before: String)
        ensures
            final(self).model() == old(self).model().applied(
                Update::ExpireBle { before },
                Seq::empty(),
            ),
    {
        if self.shown.daemon.source == Source::Ble {
            expire(&mut self.shown.battery, before.as_str());
            if self.shown.battery.stale {
                self.shown.daemon.source = Source::Nowhere;
            }
        }
    }

    fn read_metadata(&mut self, metadata: Metadata)
        ensures
            final(self).model() == old(self).model().applied(
                Update::Metadata(metadata),
                Seq::empty(),
            ),
    {
        if let Some(name) = metadata.name {
            note_report(&mut self.writes, NAME_KEY);
            self.shown.device.name = name;
        }
    }

    fn reopen(&mut self)
        ensures
            final(self).model() == old(self).model().applied(
                Update::VerifyReopening,
                Seq::empty(),
            ),
    {
        self.shown.verify_reopen = true;
        await_reports(&mut self.writes);
    }

    /// Apply one change. `stamp` is the local time at which it was heard.
    pub fn apply(&mut self, update: Update, stamp: &str)
        ensures
            final(self).model() == old(self).model().applied(update, stamp@),
    {
        match update {
            Update::AclConnected(connected) => {
                self.shown.device.connected = connected;
                self.shown.link = show_link(connected, &self.activity);
            },
            Update::AapLink(up) => {
                self.set_link(up);
            },
            Update::Identity { address, name, model_id } => {
                self.identify(address, name, model_id);
            },
            Update::Battery(entries) => {
                hear(&mut self.shown.battery, &entries, stamp);
            },
            Update::BleBattery { address, entries } => {
                self.hear_advert(address, entries, stamp);
            },
            Update::ExpireBle { before } => {
                self.expire_adverts(before);
            },
            Update::Ear { primary, secondary } => {
                self.shown.ear = sides(&self.shown.battery, self.bud, primary, secondary);
            },
            Update::NoiseControl(mode) => {
                self.shown.noise_control = publish_mode(mode);
            },
            Update::ConversationalAwareness(on) => {
                self.shown.conversational_awareness = Some(on);
            },
            Update::AdaptiveLevel(level) => {
                self.shown.adaptive_level = Some(level);
            },
            Update::Setting(setting) => {
                self.report_setting(setting);
            },
            Update::SettingRequested(setting) => {
                self.await_write(Wanted::Setting(setting));
            },
            Update::RenameRequested(name) => {
                self.await_write(Wanted::Name(name));
            },
            Update::Metadata(metadata) => {
                self.read_metadata(metadata);
            },
            Update::VerifyReopening => {
                self.reopen();
            },
            Update::VerifyCompleted => {
                self.settle(true);
            },
            Update::VerifyFailed => {
                self.settle(false);
            },
            Update::Link(activity) => {
                self.shown.link = show_link(self.shown.device.connected, &activity);
                self.activity = activity;
            },
            Update::Handoff(view) => {
                self.shown.handoff = view;
            },
        }
    }
}

// ---------------------------------------------------------------------------
// What holds of the store
// ---------------------------------------------------------------------------

impl StoreModel {
    /// The link section shows the link; of each key at most one write is
    /// awaited, and its status says so.
    pub open spec fn sound(self) -> bool {
        &&& self.shown.link == shown_link(self.shown.device.connected, self.activity)
        &&& forall|i: int, j: int|
            0 <= i < j < self.writes.len() ==> (#[trigger] self.writes[i]).wanted.key_text() != (
            #[trigger] self.writes[j]).wanted.key_text()
        &&& forall|i: int|
            0 <= i < self.writes.len() ==> self.shown.settings_status.contains_pair(
                (#[trigger] self.writes[i]).wanted.key_text(),
                "verifying"@,
            )
        &&& self.shown.settings_verify == (if self.writes.len() == 0 {
            "idle"@
        } else {
            "verifying"@
        })
    }
}

/// A store begins sound if its first snapshot shows the link as it is and
/// awaits nothing.
pub proof fn a_new_store_is_sound(s: SnapshotModel, bud: PrimaryBud)
    requires
        s.link == shown_link(s.device.connected, None),
        s.settings_verify == "idle"@,
    ensures
        (StoreModel { shown: s, writes: Seq::empty(), activity: None, bud }).sound(),
{
}

proof fn others_are_writes(writes: Seq<Write>, key: Seq<char>)
    requires
        forall|i: int, j: int|
            0 <= i < j < writes.len() ==> (#[trigger] writes[i]).wanted.key_text() != (
            #[trigger] writes[j]).wanted.key_text(),
    ensures
        forall|i: int|
            0 <= i < others(writes, key).len() ==> (#[trigger] others(
                writes,
                key,
            )[i]).wanted.key_text() != key && writes.contains(others(writes, key)[i]),
        forall|i: int, j: int|
            0 <= i < j < others(writes, key).len() ==> (#[trigger] others(
                writes,
                key,
            )[i]).wanted.key_text() != (#[trigger] others(writes, key)[j]).wanted.key_text(),
    decreases writes.len(),
{
    if writes.len() > 0 {
        let head = writes.drop_last();
        let r = others(writes, key);
        let h = others(head, key);
        assert forall|i: int, j: int| 0 <= i < j < head.len() implies (
        #[trigger] head[i]).wanted.key_text() != (#[trigger] head[j]).wanted.key_text() by {
            assert(head[i] == writes[i] && head[j] == writes[j]);
        }
        others_are_writes(head, key);
        assert forall|i: int| 0 <= i < r.len() implies (#[trigger] r[i]).wanted.key_text() != key
            && writes.contains(r[i]) by {
            if i < h.len() {
                assert(r[i] == h[i]);
                let k = choose|k: int| 0 <= k < head.len() && head[k] == h[i];
                assert(writes[k] == r[i]);
            } else {
                assert(writes[writes.len() - 1] == r[i]);
            }
        }
        assert forall|i: int, j: int| 0 <= i < j < r.len() implies (
        #[trigger] r[i]).wanted.key_text() != (#[trigger] r[j]).wanted.key_text() by {
            assert(r[i] == h[i]);
            if j < h.len() {
                assert(r[j] == h[j]);
            } else {
                let k = choose|k: int| 0 <= k < head.len() && head[k] == h[i];
                assert(writes[k] == r[i]);
                assert(writes[writes.len() - 1] == r[j]);
            }
        }
    }
}

/// Whatever is applied, the store stays sound: a live link always outranks a
/// reconnect sequence, and a write is `verifying` for as long as its readback
/// is awaited, never longer and never twice.
pub proof fn the_store_stays_sound(m: StoreModel, update: Update, stamp: Seq<char>)
    requires
        m.sound(),
    ensures
        m.applied(update, stamp).sound(),
{
    let a = m.applied(update, stamp);
    match update {
        Update::SettingRequested(setting) => {
            a_write_is_awaited_once(m, Wanted::Setting(setting));
        },
        Update::RenameRequested(name) => {
            a_write_is_awaited_once(m, Wanted::Name(name));
        },
        Update::Setting(setting) => {
            assert forall|i: int| 0 <= i < a.writes.len() implies (
            #[trigger] a.writes[i]).wanted == m.writes[i].wanted by {}
        },
        Update::Metadata(metadata) => {
            assert forall|i: int| 0 <= i < a.writes.len() implies (
            #[trigger] a.writes[i]).wanted == m.writes[i].wanted by {}
        },
        Update::VerifyReopening => {
            assert forall|i: int| 0 <= i < a.writes.len() implies (
            #[trigger] a.writes[i]).wanted == m.writes[i].wanted by {}
        },
        _ => {},
    }
}

proof fn a_write_is_awaited_once(m: StoreModel, wanted: Wanted)
    requires
        m.sound(),
    ensures
        m.wrote(wanted).sound(),
{
    let a = m.wrote(wanted);
    let key = wanted.key_text();
    others_are_writes(m.writes, key);
    let rest = others(m.writes, key);
    assert(a.writes == rest.push(Write { wanted, heard: false }));
    assert forall|i: int, j: int| 0 <= i < j < a.writes.len() implies (
    #[trigger] a.writes[i]).wanted.key_text() != (#[trigger] a.writes[j]).wanted.key_text() by {
        assert(a.writes[i] == rest[i]);
        if j < rest.len() {
            assert(a.writes[j] == rest[j]);
        }
    }
    assert forall|i: int| 0 <= i < a.writes.len() implies a.shown.settings_status.contains_pair(
        (#[trigger] a.writes[i]).wanted.key_text(),
        "verifying"@,
    ) by {
        if i < rest.len() {
            assert(a.writes[i] == rest[i]);
            let k = choose|k: int| 0 <= k < m.writes.len() && m.writes[k] == rest[i];
            assert(m.shown.settings_status.contains_pair(
                m.writes[k].wanted.key_text(),
                "verifying"@,
            ));
        }
    }
}

/// A write is confirmed only by a finished dump that reported what was
/// written.
pub proof fn only_a_reported_write_is_confirmed(w: Write, s: SnapshotModel, completed: bool)
    ensures
        verdict(w, s, completed) == "confirmed"@ <==> completed && w.heard && kept(w.wanted, s),
        verdict(w, s, completed) != "verifying"@,
{
    reveal_strlit("confirmed");
    reveal_strlit("unverified");
    reveal_strlit("unreported");
    reveal_strlit("mismatch");
    reveal_strlit("verifying");
    assert("confirmed"@.len() == 9 && "confirmed"@[0] == 'c');
    assert("verifying"@.len() == 9 && "verifying"@[0] == 'v');
    assert("unverified"@.len() == 10);
    assert("unreported"@.len() == 10);
    assert("mismatch"@.len() == 8);
}

/// Without an AAP link no cell is live and the readings are stale, but what was
/// last reported stays known.
pub proof fn a_lost_link_keeps_the_history(m: StoreModel, stamp: Seq<char>)
    ensures
        ({
            let b = m.shown.battery;
            let a = m.applied(Update::AapLink(false), stamp).shown.battery;
            &&& a.stale
            &&& !a.left.fresh && !a.right.fresh && !a.case.fresh
            &&& !a.left.present && !a.right.present && !a.case.present
            &&& a.left.level == b.left.level && a.left.last_known_charging
                == b.left.last_known_charging && a.left.last_seen == b.left.last_seen
            &&& a.right.level == b.right.level && a.right.last_known_charging
                == b.right.last_known_charging && a.right.last_seen == b.right.last_seen
            &&& a.case.level == b.case.level && a.case.last_known_charging
                == b.case.last_known_charging && a.case.last_seen == b.case.last_seen
        }),
{
}

/// A link report that says nothing new changes nothing.
pub proof fn a_repeated_link_report_is_no_change(m: StoreModel, up: bool, stamp: Seq<char>)
    ensures
        m.applied(Update::AclConnected(up), stamp).applied(Update::AclConnected(up), stamp)
            == m.applied(Update::AclConnected(up), stamp),
        m.applied(Update::AapLink(up), stamp).applied(Update::AapLink(up), stamp) == m.applied(
            Update::AapLink(up),
            stamp,
        ),
{
}

/// Readings of another accessory are not published.
pub proof fn other_accessories_are_not_heard(
    m: StoreModel,
    address: String,
    entries: Vec<BatteryEntry>,
    stamp: Seq<char>,
)
    requires
        address@ != m.shown.device.address,
    ensures
        m.applied(Update::BleBattery { address, entries }, stamp) == m,
{
}

} // verus!
