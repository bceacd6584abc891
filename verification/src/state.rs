//! The published state: what `state.json` shows of the AirPods.
use crate::settings::{CallControls, HoldDuration, MicrophoneMode, PressSpeed};
use crate::text::{same_optional, same_text, text_view};
use vstd::prelude::*;
use vstd::string::*;

verus! {

/// Where one bud is.
#[derive(Debug, Clone, Copy, PartialEq, Eq, Structural)]
pub enum EarState {
    /// In an ear.
    In,
    /// Out of the ear, not in the case.
    Out,
    /// In the charging case.
    Case,
    /// Not reported.
    Unknown,
}

/// Both buds.
#[derive(Debug, Clone, Copy, PartialEq, Eq, Structural)]
pub struct Ear {
    /// Left bud.
    pub left: EarState,
    /// Right bud.
    pub right: EarState,
}

/// A noise control mode that can be set.
#[derive(Debug, Clone, Copy, PartialEq, Eq, Structural)]
pub enum NoiseControlMode {
    /// No processing.
    Off,
    /// Active noise cancellation.
    Anc,
    /// Pass outside sound through.
    Transparency,
    /// Blend by environment.
    Adaptive,
}

impl NoiseControlMode {
    /// The mode a wire byte stands for.
    pub open spec fn of_wire(value: u8) -> Option<NoiseControlMode> {
        if value == 1 {
            Some(NoiseControlMode::Off)
        } else if value == 2 {
            Some(NoiseControlMode::Anc)
        } else if value == 3 {
            Some(NoiseControlMode::Transparency)
        } else if value == 4 {
            Some(NoiseControlMode::Adaptive)
        } else {
            None
        }
    }

    /// The byte sent for a mode.
    pub open spec fn wire(self) -> u8 {
        match self {
            NoiseControlMode::Off => 1,
            NoiseControlMode::Anc => 2,
            NoiseControlMode::Transparency => 3,
            NoiseControlMode::Adaptive => 4,
        }
    }

    /// The mode a wire byte stands for, if it stands for one.
    pub fn from_wire(value: u8) -> (r: Option<NoiseControlMode>)
        ensures
            r == NoiseControlMode::of_wire(value),
    {
        match value {
            1 => Some(NoiseControlMode::Off),
            2 => Some(NoiseControlMode::Anc),
            3 => Some(NoiseControlMode::Transparency),
            4 => Some(NoiseControlMode::Adaptive),
            _ => None,
        }
    }

    /// The byte sent for the mode.
    pub fn to_wire(self) -> (r: u8)
        ensures
            r == self.wire(),
    {
        match self {
            NoiseControlMode::Off => 1,
            NoiseControlMode::Anc => 2,
            NoiseControlMode::Transparency => 3,
            NoiseControlMode::Adaptive => 4,
        }
    }
}

/// Who holds the AirPods' audio.
#[derive(Debug, Clone, Copy, PartialEq, Eq, Structural)]
pub enum HandoffOwner {
    /// This host.
    Local,
    /// Another host.
    Other,
    /// Nothing reported on this link.
    Unknown,
}

/// What the host that the AirPods route for is doing.
#[derive(Debug, Clone, Copy, PartialEq, Eq, Structural)]
pub enum AudioSourceStatus {
    /// Nothing.
    Idle,
    /// A call.
    Call,
    /// Media playback.
    Media,
}

/// Published audio source.
#[derive(Debug, PartialEq, Eq)]
pub struct HandoffAudioSource {
    /// Host address.
    pub address: String,
    /// The host is this one.
    pub is_local: bool,
    /// What it is doing.
    pub state: AudioSourceStatus,
}

impl Clone for HandoffAudioSource {
    fn clone(&self) -> (r: Self)
        ensures
            r == *self,
    {
        HandoffAudioSource {
            address: self.address.clone(),
            is_local: self.is_local,
            state: self.state,
        }
    }
}

/// One published host.
#[derive(Debug, PartialEq, Eq)]
pub struct HandoffDevice {
    /// Host address.
    pub address: String,
    /// The host is this one.
    pub is_local: bool,
}

impl Clone for HandoffDevice {
    fn clone(&self) -> (r: Self)
        ensures
            r == *self,
    {
        HandoffDevice { address: self.address.clone(), is_local: self.is_local }
    }
}

/// What a recorded handoff was.
#[derive(Debug, Clone, Copy, PartialEq, Eq, Structural)]
pub enum HandoffEventKind {
    /// This host gave the audio up.
    Yielded,
    /// Another host asked for the audio and got it.
    YieldRequested,
    /// This host took the audio.
    TookOver,
}

/// The latest handoff.
#[derive(Debug, PartialEq, Eq)]
pub struct HandoffEvent {
    /// What happened.
    pub kind: HandoffEventKind,
    /// When, as a timestamp.
    pub at: String,
    /// Address of the other host involved.
    pub peer: Option<String>,
}

impl Clone for HandoffEvent {
    fn clone(&self) -> (r: Self)
        ensures
            r == *self,
    {
        HandoffEvent { kind: self.kind, at: self.at.clone(), peer: self.peer.clone() }
    }
}

/// The published handoff section.
#[derive(Debug, PartialEq, Eq)]
pub struct Handoff {
    /// Automatic switching is on.
    pub enabled: bool,
    /// Take over when a local player starts.
    pub take_over_on_play: bool,
    /// The local adapter presents itself as an Apple device.
    pub apple_host_id: Option<bool>,
    /// Who holds the audio.
    pub owner: HandoffOwner,
    /// Where the AirPods' audio comes from.
    pub audio_source: Option<HandoffAudioSource>,
    /// Hosts the AirPods list.
    pub devices: Vec<HandoffDevice>,
    /// Latest handoff.
    pub last_event: Option<HandoffEvent>,
}

/// The published handoff section, as mathematical values.
#[verifier::ext_equal]
pub struct HandoffView {
    /// See [`Handoff::enabled`].
    pub enabled: bool,
    /// See [`Handoff::take_over_on_play`].
    pub take_over_on_play: bool,
    /// See [`Handoff::apple_host_id`].
    pub apple_host_id: Option<bool>,
    /// See [`Handoff::owner`].
    pub owner: HandoffOwner,
    /// Address, whether it is this host, and what it does.
    pub audio_source: Option<(Seq<char>, bool, AudioSourceStatus)>,
    /// Address, and whether it is this host.
    pub devices: Seq<(Seq<char>, bool)>,
    /// Kind, time and other host.
    pub last_event: Option<(HandoffEventKind, Seq<char>, Option<Seq<char>>)>,
}

impl View for Handoff {
    type V = HandoffView;

    open spec fn view(&self) -> HandoffView {
        HandoffView {
            enabled: self.enabled,
            take_over_on_play: self.take_over_on_play,
            apple_host_id: self.apple_host_id,
            owner: self.owner,
            audio_source: match self.audio_source {
                Some(s) => Some((s.address@, s.is_local, s.state)),
                None => None,
            },
            devices: self.devices@.map_values(|d: HandoffDevice| (d.address@, d.is_local)),
            last_event: match self.last_event {
                Some(e) => Some((e.kind, e.at@, text_view(e.peer))),
                None => None,
            },
        }
    }
}

impl Clone for Handoff {
    fn clone(&self) -> (r: Self)
        ensures
            r@ == self@,
    {
        let r = Handoff {
            enabled: self.enabled,
            take_over_on_play: self.take_over_on_play,
            apple_host_id: self.apple_host_id,
            owner: self.owner,
            audio_source: self.audio_source.clone(),
            devices: self.devices.clone(),
            last_event: self.last_event.clone(),
        };
        proof {
            assert(r.devices@ =~= self.devices@);
        }
        r
    }
}

impl Handoff {
    /// Whether two sections say the same.
    pub fn is_same(&self, other: &Handoff) -> (r: bool)
        ensures
            r == (self@ == other@),
    {
        let source = match (&self.audio_source, &other.audio_source) {
            (Some(a), Some(b)) => a.is_local == b.is_local && a.state == b.state && same_text(
                a.address.as_str(),
                b.address.as_str(),
            ),
            (None, None) => true,
            _ => false,
        };
        let event = match (&self.last_event, &other.last_event) {
            (Some(a), Some(b)) => a.kind == b.kind && same_text(a.at.as_str(), b.at.as_str())
                && same_optional(&a.peer, &b.peer),
            (None, None) => true,
            _ => false,
        };
        let listed = same_devices(&self.devices, &other.devices);
        let r = self.enabled == other.enabled && self.take_over_on_play == other.take_over_on_play
            && self.apple_host_id == other.apple_host_id && self.owner == other.owner && source
            && event && listed;
        proof {
            assert(source == (self@.audio_source == other@.audio_source));
            assert(event == (self@.last_event == other@.last_event));
            assert(listed == (self@.devices == other@.devices));
        }
        r
    }
}

/// Whether two lists name the same hosts in the same order.
fn same_devices(a: &Vec<HandoffDevice>, b: &Vec<HandoffDevice>) -> (r: bool)
    ensures
        r == (a@.map_values(|d: HandoffDevice| (d.address@, d.is_local)) == b@.map_values(
            |d: HandoffDevice| (d.address@, d.is_local),
        )),
{
    let ghost left = a@.map_values(|d: HandoffDevice| (d.address@, d.is_local));
    let ghost right = b@.map_values(|d: HandoffDevice| (d.address@, d.is_local));
    if a.len() != b.len() {
        proof {
            assert(left.len() != right.len());
        }
        return false;
    }
    let mut i: usize = 0;
    while i < a.len()
        invariant
            i <= a@.len(),
            a@.len() == b@.len(),
            left == a@.map_values(|d: HandoffDevice| (d.address@, d.is_local)),
            right == b@.map_values(|d: HandoffDevice| (d.address@, d.is_local)),
            forall|k: int| 0 <= k < i ==> left[k] == right[k],
        decreases a@.len() - i,
    {
        if a[i].is_local != b[i].is_local || !same_text(
            a[i].address.as_str(),
            b[i].address.as_str(),
        ) {
            proof {
                assert(left[i as int] != right[i as int]);
            }
            return false;
        }
        i = i + 1;
    }
    proof {
        assert(left =~= right);
    }
    true
}

impl Default for Handoff {
    fn default() -> (r: Self)
        ensures
            !r.enabled,
            !r.take_over_on_play,
            r.apple_host_id is None,
            r.owner == HandoffOwner::Unknown,
            r.audio_source is None,
            r.devices@.len() == 0,
            r.last_event is None,
    {
        Handoff {
            enabled: false,
            take_over_on_play: false,
            apple_host_id: None,
            owner: HandoffOwner::Unknown,
            audio_source: None,
            devices: Vec::new(),
            last_event: None,
        }
    }
}

/// The key under which a rename is verified.
pub const NAME_KEY: &'static str = "name";

/// Published noise control: a mode, or nothing heard yet.
#[derive(Debug, Clone, Copy, PartialEq, Eq, Structural)]
pub enum NoiseControl {
    /// No processing.
    Off,
    /// Active noise cancellation.
    Anc,
    /// Pass outside sound through.
    Transparency,
    /// Blend by environment.
    Adaptive,
    /// Not reported yet.
    Unknown,
}

/// One battery cell.
#[derive(Debug, PartialEq, Eq)]
pub struct Cell {
    /// Latest level, 0-100.
    pub level: Option<u8>,
    /// Charging right now.
    pub charging: bool,
    /// Charging when it was last heard from.
    pub last_known_charging: Option<bool>,
    /// Reporting right now.
    pub present: bool,
    /// Reported on the current link.
    pub fresh: bool,
    /// When it was last heard from.
    pub last_seen: Option<String>,
}

/// A cell with its text read as a sequence.
#[verifier::ext_equal]
pub struct CellModel {
    /// Latest level, 0-100.
    pub level: Option<u8>,
    /// Charging right now.
    pub charging: bool,
    /// Charging when it was last heard from.
    pub last_known_charging: Option<bool>,
    /// Reporting right now.
    pub present: bool,
    /// Reported on the current link.
    pub fresh: bool,
    /// When it was last heard from.
    pub last_seen: Option<Seq<char>>,
}

impl View for Cell {
    type V = CellModel;

    open spec fn view(&self) -> CellModel {
        CellModel {
            level: self.level,
            charging: self.charging,
            last_known_charging: self.last_known_charging,
            present: self.present,
            fresh: self.fresh,
            last_seen: text_view(self.last_seen),
        }
    }
}

impl Default for Cell {
    fn default() -> (r: Self)
        ensures
            r == (Cell {
                level: None,
                charging: false,
                last_known_charging: None,
                present: false,
                fresh: false,
                last_seen: None,
            }),
    {
        Cell {
            level: None,
            charging: false,
            last_known_charging: None,
            present: false,
            fresh: false,
            last_seen: None,
        }
    }
}

impl Clone for Cell {
    fn clone(&self) -> (r: Self)
        ensures
            r == *self,
    {
        Cell {
            level: self.level,
            charging: self.charging,
            last_known_charging: self.last_known_charging,
            present: self.present,
            fresh: self.fresh,
            last_seen: self.last_seen.clone(),
        }
    }
}

/// The three cells.
#[derive(Debug, PartialEq, Eq)]
pub struct Battery {
    /// The readings come from an earlier link.
    pub stale: bool,
    /// Left bud.
    pub left: Cell,
    /// Right bud.
    pub right: Cell,
    /// Charging case.
    pub case: Cell,
}

/// The three cells, texts read as sequences.
#[verifier::ext_equal]
pub struct BatteryModel {
    /// The readings come from an earlier link.
    pub stale: bool,
    /// Left bud.
    pub left: CellModel,
    /// Right bud.
    pub right: CellModel,
    /// Charging case.
    pub case: CellModel,
}

impl View for Battery {
    type V = BatteryModel;

    open spec fn view(&self) -> BatteryModel {
        BatteryModel {
            stale: self.stale,
            left: self.left@,
            right: self.right@,
            case: self.case@,
        }
    }
}

impl Default for Battery {
    fn default() -> (r: Self)
        ensures
            r.stale,
            call_ensures(Cell::default, (), r.left),
            call_ensures(Cell::default, (), r.right),
            call_ensures(Cell::default, (), r.case),
    {
        Battery {
            stale: true,
            left: Cell::default(),
            right: Cell::default(),
            case: Cell::default(),
        }
    }
}

impl Clone for Battery {
    fn clone(&self) -> (r: Self)
        ensures
            r == *self,
    {
        Battery {
            stale: self.stale,
            left: self.left.clone(),
            right: self.right.clone(),
            case: self.case.clone(),
        }
    }
}

/// Where the published readings come from.
#[derive(Debug, Clone, Copy, PartialEq, Eq, Structural)]
pub enum Source {
    /// The AAP link.
    Aap,
    /// Bluetooth Low Energy adverts.
    Ble,
    /// Nowhere.
    Nowhere,
}

/// The charging case's lid.
#[derive(Debug, Clone, Copy, PartialEq, Eq, Structural)]
pub enum Lid {
    /// Open.
    Open,
    /// Closed.
    Closed,
    /// Not reported.
    Unknown,
}

/// Why a reconnect is under way.
#[derive(Debug, Clone, Copy, PartialEq, Eq, Structural)]
pub enum LinkReason {
    /// The buds handed the radio link to the other bud.
    BudSwitch,
    /// Another Apple host took the AirPods.
    TakenOver,
    /// The link timed out.
    LinkLost,
    /// The AirPods appeared nearby.
    AutoConnect,
}

/// Whether the AirPods are here.
#[derive(Debug, Clone, Copy, PartialEq, Eq, Structural)]
pub enum LinkStatus {
    /// Connected.
    Connected,
    /// Not connected, and a reconnect is under way.
    Reconnecting,
    /// Not connected.
    Disconnected,
}

/// The published link section.
#[derive(Debug, Clone, PartialEq, Eq)]
pub struct Link {
    /// Whether the AirPods are here.
    pub status: LinkStatus,
    /// Why a reconnect is under way.
    pub reason: Option<LinkReason>,
    /// Connects started in it.
    pub attempt: u32,
    /// When it began.
    pub since: Option<String>,
}

/// The link section with its text read as a sequence.
#[verifier::ext_equal]
pub struct LinkModel {
    /// Whether the AirPods are here.
    pub status: LinkStatus,
    /// Why a reconnect is under way.
    pub reason: Option<LinkReason>,
    /// Connects started in it.
    pub attempt: u32,
    /// When it began.
    pub since: Option<Seq<char>>,
}

impl View for Link {
    type V = LinkModel;

    open spec fn view(&self) -> LinkModel {
        LinkModel {
            status: self.status,
            reason: self.reason,
            attempt: self.attempt,
            since: text_view(self.since),
        }
    }
}

impl Default for Link {
    fn default() -> (r: Self)
        ensures
            r == (Link {
                status: LinkStatus::Disconnected,
                reason: None,
                attempt: 0,
                since: None,
            }),
    {
        Link { status: LinkStatus::Disconnected, reason: None, attempt: 0, since: None }
    }
}

/// Which accessory this is, and whether it is here.
#[derive(Debug, Clone, PartialEq, Eq)]
pub struct Device {
    /// Bluetooth address, empty before one is known.
    pub address: String,
    /// Bluetooth name, empty before one is known.
    pub name: String,
    /// Marketing name.
    pub model: Option<String>,
    /// Product id in upper-case hex, empty before one is known.
    pub model_id: String,
    /// The classic link is up.
    pub connected: bool,
    /// The AAP link is up.
    pub aap_link: bool,
}

/// The accessory with its texts read as sequences.
#[verifier::ext_equal]
pub struct DeviceModel {
    /// Bluetooth address.
    pub address: Seq<char>,
    /// Bluetooth name.
    pub name: Seq<char>,
    /// Marketing name.
    pub model: Option<Seq<char>>,
    /// Product id.
    pub model_id: Seq<char>,
    /// The classic link is up.
    pub connected: bool,
    /// The AAP link is up.
    pub aap_link: bool,
}

impl View for Device {
    type V = DeviceModel;

    open spec fn view(&self) -> DeviceModel {
        DeviceModel {
            address: self.address@,
            name: self.name@,
            model: text_view(self.model),
            model_id: self.model_id@,
            connected: self.connected,
            aap_link: self.aap_link,
        }
    }
}

/// Latest reported settings.
#[derive(Debug, Clone, PartialEq, Eq)]
pub struct Settings {
    /// Microphone.
    pub microphone: Option<MicrophoneMode>,
    /// Press speed.
    pub press_speed: Option<PressSpeed>,
    /// Hold duration.
    pub hold_duration: Option<HoldDuration>,
    /// Modes a press and hold steps through.
    pub listening_mode_cycle: Option<Vec<NoiseControlMode>>,
    /// Call controls.
    pub call_controls: Option<CallControls>,
    /// Personalized volume.
    pub personalized_volume: Option<bool>,
}

impl Default for Settings {
    fn default() -> (r: Self)
        ensures
            r == (Settings {
                microphone: None,
                press_speed: None,
                hold_duration: None,
                listening_mode_cycle: None,
                call_controls: None,
                personalized_volume: None,
            }),
    {
        Settings {
            microphone: None,
            press_speed: None,
            hold_duration: None,
            listening_mode_cycle: None,
            call_controls: None,
            personalized_volume: None,
        }
    }
}

/// How the readback of each written setting stands.
#[derive(Debug, Clone, PartialEq, Eq)]
pub struct SettingsStatus {
    entries: Vec<(String, String)>,
}

impl View for SettingsStatus {
    type V = Map<Seq<char>, Seq<char>>;

    closed spec fn view(&self) -> Map<Seq<char>, Seq<char>> {
        Map::new(
            |key: Seq<char>| self.place(key) < self.entries@.len(),
            |key: Seq<char>| self.entries@[self.place(key)].1@,
        )
    }
}

impl SettingsStatus {
    closed spec fn place(self, key: Seq<char>) -> int {
        place_of(self.entries@, key)
    }

    /// No setting was written yet.
    pub fn new() -> (r: Self)
        ensures
            r@ == Map::<Seq<char>, Seq<char>>::empty(),
    {
        let r = SettingsStatus { entries: Vec::new() };
        proof {
            assert(r@ =~= Map::<Seq<char>, Seq<char>>::empty());
        }
        r
    }

    fn position(&self, key: &str) -> (r: usize)
        ensures
            r == self.place(key@),
            r <= self.entries@.len(),
    {
        let mut i: usize = 0;
        proof {
            assert(self.entries@.skip(0) =~= self.entries@);
        }
        while i < self.entries.len()
            invariant
                i <= self.entries@.len(),
                place_of(self.entries@, key@) == i + place_of(self.entries@.skip(i as int), key@),
            decreases self.entries@.len() - i,
        {
            let ghost rest = self.entries@.skip(i as int);
            proof {
                assert(rest[0] == self.entries@[i as int]);
                assert(rest.skip(1) =~= self.entries@.skip(i + 1));
            }
            if same_text(self.entries[i].0.as_str(), key) {
                return i;
            }
            i += 1;
        }
        proof {
            assert(self.entries@.skip(i as int) =~= Seq::empty());
        }
        i
    }

    /// The status of one setting.
    pub fn get(&self, key: &str) -> (r: Option<&str>)
        ensures
            match r {
                Some(status) => self@.contains_pair(key@, status@),
                None => !self@.contains_key(key@),
            },
    {
        let at: usize = self.position(key);
        if at < self.entries.len() {
            Some(self.entries[at].1.as_str())
        } else {
            None
        }
    }

    /// Set the status of one setting.
    pub fn insert(&mut self, key: String, status: String)
        ensures
            final(self)@ == old(self)@.insert(key@, status@),
    {
        let ghost before = *self;
        let at: usize = self.position(key.as_str());
        let ghost k = key@;
        let ghost v = status@;
        let found: bool = at < self.entries.len();
        if found {
            self.entries.set(at, (key, status));
        } else {
            self.entries.push((key, status));
        }
        proof {
            let after = *self;
            assert forall|q: Seq<char>|
                (#[trigger] after@.contains_key(q) <==> before@.insert(k, v).contains_key(q)) && (
                after@.contains_key(q) ==> after@[q] == before@.insert(k, v)[q]) by {
                place_is_first(before.entries@, q);
                place_is_first(after.entries@, q);
                place_is_first(before.entries@, k);
                if q == k {
                    place_unique(after.entries@, q, at as int);
                } else {
                    let b = before.place(q);
                    if b < before.entries@.len() {
                        assert(b != at);
                        place_unique(after.entries@, q, b);
                    } else {
                        place_absent(after.entries@, q);
                    }
                }
            }
            assert(after@ =~= before@.insert(k, v));
        }
    }
}

spec fn place_of(entries: Seq<(String, String)>, key: Seq<char>) -> int
    decreases entries.len(),
{
    if entries.len() == 0 {
        0
    } else if entries[0].0@ == key {
        0
    } else {
        1 + place_of(entries.skip(1), key)
    }
}

proof fn place_is_first(entries: Seq<(String, String)>, key: Seq<char>)
    ensures
        0 <= place_of(entries, key) <= entries.len(),
        place_of(entries, key) < entries.len() ==> entries[place_of(entries, key)].0@ == key,
        forall|i: int| 0 <= i < place_of(entries, key) ==> (#[trigger] entries[i]).0@ != key,
    decreases entries.len(),
{
    if entries.len() > 0 && entries[0].0@ != key {
        let rest = entries.skip(1);
        place_is_first(rest, key);
        assert forall|i: int| 0 <= i < place_of(entries, key) implies (
        #[trigger] entries[i]).0@ != key by {
            if i > 0 {
                assert(entries[i] == rest[i - 1]);
            }
        }
        if place_of(entries, key) < entries.len() {
            assert(entries[place_of(entries, key)] == rest[place_of(rest, key)]);
        }
    }
}

proof fn place_unique(entries: Seq<(String, String)>, key: Seq<char>, at: int)
    requires
        0 <= at < entries.len(),
        entries[at].0@ == key,
        forall|i: int| 0 <= i < at ==> (#[trigger] entries[i]).0@ != key,
    ensures
        place_of(entries, key) == at,
{
    place_is_first(entries, key);
    let p = place_of(entries, key);
    if p > at {
        assert(entries[at].0@ != key);
    }
    if p < at {
        assert(entries[p].0@ != key);
    }
}

proof fn place_absent(entries: Seq<(String, String)>, key: Seq<char>)
    requires
        forall|i: int| 0 <= i < entries.len() ==> (#[trigger] entries[i]).0@ != key,
    ensures
        place_of(entries, key) == entries.len(),
{
    place_is_first(entries, key);
}

/// About the daemon itself.
#[derive(Debug, Clone, PartialEq, Eq)]
pub struct Daemon {
    /// Where the published readings come from.
    pub source: Source,
}

/// The version of the published document.
pub const SCHEMA: u32 = 2;

/// The version of the settings contract that this library speaks.
pub const SETTINGS_API: u32 = 2;

/// Everything that is published.
#[derive(Debug, Clone, PartialEq, Eq)]
pub struct Snapshot {
    /// Version of the document.
    pub schema: u32,
    /// The accessory.
    pub device: Device,
    /// The three cells.
    pub battery: Battery,
    /// Noise control.
    pub noise_control: NoiseControl,
    /// Conversational awareness.
    pub conversational_awareness: Option<bool>,
    /// Adaptive transparency level.
    pub adaptive_level: Option<u8>,
    /// Both buds.
    pub ear: Ear,
    /// The case's lid.
    pub lid: Lid,
    /// Latest reported settings.
    pub settings: Settings,
    /// Version of the settings contract; zero on a daemon without one.
    pub settings_api: u32,
    /// How each written setting's readback stands.
    pub settings_status: SettingsStatus,
    /// `verifying` while a readback is awaited, else `idle`.
    pub settings_verify: String,
    /// The AAP link is down on purpose, to read settings back.
    pub verify_reopen: bool,
    /// Apple multi-host switching.
    pub handoff: Handoff,
    /// The link.
    pub link: Link,
    /// The daemon.
    pub daemon: Daemon,
}

/// Everything that is published, as mathematical values.
#[verifier::ext_equal]
pub struct SnapshotModel {
    /// Version of the document.
    pub schema: u32,
    /// The accessory.
    pub device: DeviceModel,
    /// The three cells.
    pub battery: BatteryModel,
    /// Noise control.
    pub noise_control: NoiseControl,
    /// Conversational awareness.
    pub conversational_awareness: Option<bool>,
    /// Adaptive transparency level.
    pub adaptive_level: Option<u8>,
    /// Both buds.
    pub ear: Ear,
    /// The case's lid.
    pub lid: Lid,
    /// Latest reported settings.
    pub settings: Settings,
    /// Version of the settings contract.
    pub settings_api: u32,
    /// How each written setting's readback stands.
    pub settings_status: Map<Seq<char>, Seq<char>>,
    /// How the readback as a whole stands.
    pub settings_verify: Seq<char>,
    /// The AAP link is down on purpose.
    pub verify_reopen: bool,
    /// Apple multi-host switching.
    pub handoff: Handoff,
    /// The link.
    pub link: LinkModel,
    /// The daemon.
    pub daemon: Daemon,
}

impl View for Snapshot {
    type V = SnapshotModel;

    open spec fn view(&self) -> SnapshotModel {
        SnapshotModel {
            schema: self.schema,
            device: self.device@,
            battery: self.battery@,
            noise_control: self.noise_control,
            conversational_awareness: self.conversational_awareness,
            adaptive_level: self.adaptive_level,
            ear: self.ear,
            lid: self.lid,
            settings: self.settings,
            settings_api: self.settings_api,
            settings_status: self.settings_status@,
            settings_verify: self.settings_verify@,
            verify_reopen: self.verify_reopen,
            handoff: self.handoff,
            link: self.link@,
            daemon: self.daemon,
        }
    }
}

impl Snapshot {
    /// Nothing heard yet from the accessory at `address`.
    pub fn initial(address: &str) -> (r: Self)
        ensures
            r.schema == SCHEMA,
            r.device.address@ == address@,
            r.device.name@.len() == 0,
            r.device.model is None,
            r.device.model_id@.len() == 0,
            !r.device.connected,
            !r.device.aap_link,
            call_ensures(Battery::default, (), r.battery),
            r.noise_control == NoiseControl::Unknown,
            r.conversational_awareness is None,
            r.adaptive_level is None,
            r.ear == (Ear { left: EarState::Unknown, right: EarState::Unknown }),
            r.lid == Lid::Unknown,
            call_ensures(Settings::default, (), r.settings),
            r.settings_api == SETTINGS_API,
            r.settings_status@ == Map::<Seq<char>, Seq<char>>::empty(),
            r.settings_verify@ == "idle"@,
            !r.verify_reopen,
            call_ensures(Handoff::default, (), r.handoff),
            call_ensures(Link::default, (), r.link),
            r.daemon.source == Source::Nowhere,
    {
        Snapshot {
            schema: SCHEMA,
            device: Device {
                address: address.to_owned(),
                name: String::new(),
                model: None,
                model_id: String::new(),
                connected: false,
                aap_link: false,
            },
            battery: Battery::default(),
            noise_control: NoiseControl::Unknown,
            conversational_awareness: None,
            adaptive_level: None,
            ear: Ear { left: EarState::Unknown, right: EarState::Unknown },
            lid: Lid::Unknown,
            settings: Settings::default(),
            settings_api: SETTINGS_API,
            settings_status: SettingsStatus::new(),
            settings_verify: "idle".to_owned(),
            verify_reopen: false,
            handoff: Handoff::default(),
            link: Link::default(),
            daemon: Daemon { source: Source::Nowhere },
        }
    }
}

} // verus!
