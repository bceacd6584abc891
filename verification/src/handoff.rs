//! Apple multi-host switching: the ownership state machine.
//!
//! [`decide`] takes the state, one event and a clock reading and returns the
//! side effects; the session performs them. One rule is specific to desktop
//! players, the yielded hold: browsers resume on their own when the audio
//! route changes, and a resume must not be mistaken for the user asking for
//! the AirPods back. Reports are always folded into the state so that a UI can
//! show where audio is; automatic actions additionally need `enabled`.
use crate::aap::codec::{AudioSourceState, PLAYING_APP_UNKNOWN};
use crate::address::Address;
use crate::audio_route::RouteMode;
use crate::clock::{is_within, since, within, elapsed, Duration, Instant, MILLISECOND, SECOND};
use crate::state::{
    AudioSourceStatus, Handoff, HandoffAudioSource, HandoffDevice, HandoffEvent, HandoffEventKind,
    HandoffOwner, HandoffView,
};
use crate::text::{same_optional, text_view};
use vstd::prelude::*;
use vstd::string::*;

verus! {

/// A local Paused -> Playing edge must stay Playing this long before it counts
/// as the user asking for the AirPods.
pub const PLAY_DEBOUNCE: Duration = 1500 * MILLISECOND;

/// While yielded, a Playing edge this soon after our own pause (or the peer's
/// latest ownership request) is a player resuming itself. A self-resume lands
/// well within a second of the pause, while a user press asking to take over
/// can come several seconds later.
pub const PAUSE_HOLD: Duration = 2500 * MILLISECOND;

/// While yielded, a Playing edge this soon after a connection, profile or
/// transport change, or an audio-source report naming this host, is a player
/// resuming because its sink changed.
pub const AUDIO_CHANGE_HOLD: Duration = 2500 * MILLISECOND;

/// Reports for this long after an AAP link opens are the AirPods' opening
/// state dump, even when the settings dump has already ended.
pub const OPENING_WINDOW: Duration = 3 * SECOND;

/// The opening window never lasts longer than this, settings dump or not.
pub const OPENING_WINDOW_MAX: Duration = 10 * SECOND;

/// A yielded hold survives an idle or local audio-source report only this
/// soon after the latest real yield request.
pub const REQUEST_RECENT: Duration = 10 * SECOND;

/// After a take-over with a local player playing, the A2DP transport must be
/// pending or active this soon, or the take-over is reported as silent.
pub const STREAM_CHECK: Duration = 3 * SECOND;

/// After a take-over, `HostStreamingState NO` is held back this long while
/// the stream starts: a player stalled on a silent sink is not a stop.
pub const STREAM_GRACE: Duration = 8 * SECOND;

/// Local playback must stay stopped this long before `HostStreamingState NO`
/// is sent; a play within it still counts as wanting the stream.
pub const PLAYBACK_STOPPED: Duration = 3 * SECOND;

/// Something the session observed.
#[derive(Debug, Clone, PartialEq, Eq)]
pub enum Event {
    /// An AAP socket was connected; the opening sequence starts.
    LinkOpened,
    /// The link's opening settings dump ended.
    OpeningSettled,
    /// The AAP socket, or the attempt to open one, ended.
    LinkClosed,
    /// An audio-source report.
    AudioSource {
        /// Host the AirPods route for.
        address: Address,
        /// What that host is doing.
        state: AudioSourceState,
    },
    /// A connected-devices report, addresses in wire order.
    ConnectedDevices(Vec<Address>),
    /// The ownership control, from the AirPods.
    OwnsConnection {
        /// This host owns the audio connection.
        owns: bool,
        /// Part of the opening settings dump: state, not a handoff.
        opening: bool,
    },
    /// A smart-routing message relayed from another host.
    SmartRouting {
        /// Sending host.
        sender: Address,
        /// The body asks this host to give ownership up.
        requests_yield: bool,
    },
    /// A local MPRIS reading.
    Playback {
        /// Any player is Playing.
        playing: bool,
        /// Identity of the playing player.
        app: Option<String>,
        /// MPRIS bus name of the playing player.
        player: Option<String>,
    },
    /// BlueZ reported a connection, audio profile or media transport change
    /// for the AirPods.
    AudioLinkChanged,
    /// The A2DP transport is pending or active (`true`), or idle or absent.
    A2dpTransport {
        /// Audio is flowing or about to.
        active: bool,
    },
    /// Periodic tick; fires a debounced take-over.
    Tick,
    /// The user asked for a take-over.
    TakeOver,
    /// The user asked for a yield.
    Yield,
}

/// A side effect for the session to perform, in order.
#[derive(Debug, Clone, PartialEq, Eq)]
pub enum Action {
    /// The ownership control.
    SendOwnership(bool),
    /// Media information to one host.
    SendMediaInfo {
        /// Host to relay to.
        target: Address,
        /// `HostStreamingState` YES or NO.
        streaming: bool,
        /// `PlayingApp`.
        app: String,
    },
    /// Media information for a host that just joined.
    SendNewDeviceMediaInfo {
        /// Host to relay to.
        target: Address,
    },
    /// Ask a host to give the route up.
    SendHijack {
        /// Host to relay to.
        target: Address,
    },
    /// Introduce this host.
    SendNewTipi {
        /// Host to relay to.
        target: Address,
    },
    /// Pause every local MPRIS player that is Playing.
    PauseLocalPlayers,
    /// A local player resumed on its own while yielded: pause it again.
    RepausePlayer {
        /// MPRIS bus name of the player; `None` pauses every Playing player.
        player: Option<String>,
    },
    /// Connect the A2DP sink profile.
    ClaimAudio,
    /// Point the local PipeWire card at the AirPods or away from them. Sent
    /// before the ownership write on a take-over, so the sink node exists
    /// again before the player streams, and after the local pause on a yield,
    /// so the transport is released from this side.
    SetAudioRoute(RouteMode),
    /// The A2DP stream stayed idle for [`STREAM_CHECK`] after a take-over.
    /// Said once per take-over.
    StreamNotStarted,
    /// Publish `last_event`; the session supplies the timestamp.
    Record {
        /// What happened.
        kind: HandoffEventKind,
        /// Other host involved.
        peer: Option<Address>,
    },
}

/// An action with its texts read as sequences.
#[verifier::ext_equal]
pub enum ActionModel {
    /// See [`Action::SendOwnership`].
    SendOwnership(bool),
    /// See [`Action::SendMediaInfo`].
    SendMediaInfo {
        /// Host to relay to.
        target: Address,
        /// Streaming or not.
        streaming: bool,
        /// Playing app.
        app: Seq<char>,
    },
    /// See [`Action::SendNewDeviceMediaInfo`].
    SendNewDeviceMediaInfo {
        /// Host to relay to.
        target: Address,
    },
    /// See [`Action::SendHijack`].
    SendHijack {
        /// Host to relay to.
        target: Address,
    },
    /// See [`Action::SendNewTipi`].
    SendNewTipi {
        /// Host to relay to.
        target: Address,
    },
    /// See [`Action::PauseLocalPlayers`].
    PauseLocalPlayers,
    /// See [`Action::RepausePlayer`].
    RepausePlayer {
        /// The player.
        player: Option<Seq<char>>,
    },
    /// See [`Action::ClaimAudio`].
    ClaimAudio,
    /// See [`Action::SetAudioRoute`].
    SetAudioRoute(RouteMode),
    /// See [`Action::StreamNotStarted`].
    StreamNotStarted,
    /// See [`Action::Record`].
    Record {
        /// What happened.
        kind: HandoffEventKind,
        /// Other host involved.
        peer: Option<Address>,
    },
}

impl View for Action {
    type V = ActionModel;

    open spec fn view(&self) -> ActionModel {
        match *self {
            Action::SendOwnership(own) => ActionModel::SendOwnership(own),
            Action::SendMediaInfo { target, streaming, app } => ActionModel::SendMediaInfo {
                target,
                streaming,
                app: app@,
            },
            Action::SendNewDeviceMediaInfo { target } => ActionModel::SendNewDeviceMediaInfo {
                target,
            },
            Action::SendHijack { target } => ActionModel::SendHijack { target },
            Action::SendNewTipi { target } => ActionModel::SendNewTipi { target },
            Action::PauseLocalPlayers => ActionModel::PauseLocalPlayers,
            Action::RepausePlayer { player } => ActionModel::RepausePlayer {
                player: text_view(player),
            },
            Action::ClaimAudio => ActionModel::ClaimAudio,
            Action::SetAudioRoute(mode) => ActionModel::SetAudioRoute(mode),
            Action::StreamNotStarted => ActionModel::StreamNotStarted,
            Action::Record { kind, peer } => ActionModel::Record { kind, peer },
        }
    }
}

/// The actions of a list, texts read as sequences.
pub open spec fn action_views(actions: Seq<Action>) -> Seq<ActionModel> {
    actions.map_values(|a: Action| a@)
}

/// A published handoff event with its texts read as sequences.
#[verifier::ext_equal]
pub struct RecordedModel {
    /// What happened.
    pub kind: HandoffEventKind,
    /// Timestamp.
    pub at: Seq<char>,
    /// Written address of the other host.
    pub peer: Option<Seq<char>>,
}

/// The recorded event's contents.
pub open spec fn recorded_view(event: Option<HandoffEvent>) -> Option<RecordedModel> {
    match event {
        Some(e) => Some(RecordedModel { kind: e.kind, at: e.at@, peer: text_view(e.peer) }),
        None => None,
    }
}

/// Everything [`decide`] remembers, as mathematical values.
#[verifier::ext_equal]
pub struct HandoffModel {
    /// Automatic switching is on.
    pub enabled: bool,
    /// Take over when a local player starts.
    pub take_over_on_play: bool,
    /// Local adapter names Apple.
    pub apple_host_id: Option<bool>,
    /// Local adapter address.
    pub local: Option<Address>,
    /// Latest published handoff.
    pub last_event: Option<RecordedModel>,
    /// An AAP link is up.
    pub link_up: bool,
    /// Who holds the audio.
    pub owner: HandoffOwner,
    /// Latest audio-source report.
    pub audio_source: Option<(Address, AudioSourceStatus)>,
    /// Latest list of hosts.
    pub devices: Seq<Address>,
    /// This host gave the audio up and has not taken it back on this link.
    pub released: bool,
    /// Yielded hold: local Playing edges are checked for auto-resume.
    pub held: bool,
    /// Latest pause of ours, or latest request of the peer, while held.
    pub hold_from: Option<Instant>,
    /// When the current link opened.
    pub opened_at: Option<Instant>,
    /// The link's opening settings dump has ended.
    pub opening_settled: bool,
    /// Latest real yield request.
    pub last_request: Option<Instant>,
    /// Players paused again since `last_request`: one automatic re-pause each.
    pub repaused: Seq<Option<Seq<char>>>,
    /// Latest audio link change.
    pub audio_changed: Option<Instant>,
    /// Latest playback reading since start or link open.
    pub playing: Option<bool>,
    /// Latest known playing app.
    pub playing_app: Option<Seq<char>>,
    /// Latest known playing player.
    pub playing_player: Option<Seq<char>>,
    /// A play that may turn out to be the user's began then.
    pub play_edge: Option<Instant>,
    /// Latest time a local player was seen Playing.
    pub last_play: Option<Instant>,
    /// Local playback stopped then; `HostStreamingState NO` is undecided.
    pub stopped_at: Option<Instant>,
    /// The A2DP transport is pending or active.
    pub transport_active: Option<bool>,
    /// Latest take-over.
    pub took_over_at: Option<Instant>,
    /// Warn if the stream has not started by then.
    pub stream_check: Option<Instant>,
    /// Say streaming once more when the transport becomes active.
    pub reannounce: bool,
    /// Latest `HostStreamingState` sent on this link.
    pub announced: Option<bool>,
}

/// The hosts of a list other than this one, in order.
pub open spec fn other_hosts(local: Option<Address>, devices: Seq<Address>) -> Seq<Address>
    decreases devices.len(),
{
    if devices.len() == 0 {
        Seq::empty()
    } else {
        let rest = other_hosts(local, devices.drop_last());
        if local == Some(devices.last()) {
            rest
        } else {
            rest.push(devices.last())
        }
    }
}

/// The hosts of `list` that are neither in `known` nor this host, in order.
pub open spec fn joined_hosts(
    local: Option<Address>,
    known: Seq<Address>,
    list: Seq<Address>,
) -> Seq<Address>
    decreases list.len(),
{
    if list.len() == 0 {
        Seq::empty()
    } else {
        let rest = joined_hosts(local, known, list.drop_last());
        if local == Some(list.last()) || known.contains(list.last()) {
            rest
        } else {
            rest.push(list.last())
        }
    }
}

/// Media information to each of these hosts.
pub open spec fn media_infos(
    targets: Seq<Address>,
    streaming: bool,
    app: Seq<char>,
) -> Seq<ActionModel> {
    Seq::new(
        targets.len(),
        |i: int| ActionModel::SendMediaInfo { target: targets[i], streaming, app },
    )
}

/// A hijack request to each of these hosts.
pub open spec fn hijacks(targets: Seq<Address>) -> Seq<ActionModel> {
    Seq::new(targets.len(), |i: int| ActionModel::SendHijack { target: targets[i] })
}

/// Media information and an introduction to each of these hosts.
pub open spec fn introductions(targets: Seq<Address>) -> Seq<ActionModel>
    decreases targets.len(),
{
    if targets.len() == 0 {
        Seq::empty()
    } else {
        introductions(targets.drop_last()).push(
            ActionModel::SendNewDeviceMediaInfo { target: targets.last() },
        ).push(ActionModel::SendNewTipi { target: targets.last() })
    }
}

impl HandoffModel {
    /// Fresh state: nothing reported, no link.
    pub open spec fn fresh(enabled: bool, take_over_on_play: bool) -> HandoffModel {
        HandoffModel {
            enabled,
            take_over_on_play,
            apple_host_id: None,
            local: None,
            last_event: None,
            link_up: false,
            owner: HandoffOwner::Unknown,
            audio_source: None,
            devices: Seq::empty(),
            released: false,
            held: false,
            hold_from: None,
            opened_at: None,
            opening_settled: false,
            last_request: None,
            repaused: Seq::empty(),
            audio_changed: None,
            playing: None,
            playing_app: None,
            playing_player: None,
            play_edge: None,
            last_play: None,
            stopped_at: None,
            transport_active: None,
            took_over_at: None,
            stream_check: None,
            reannounce: false,
            announced: None,
        }
    }

    /// The address is this host's.
    pub open spec fn is_local(self, address: Address) -> bool {
        self.local == Some(address)
    }

    /// The AirPods last said this host owns them and it has not yielded.
    pub open spec fn owns(self) -> bool {
        self.owner == HandoffOwner::Local && !self.released
    }

    /// The listed hosts other than this one.
    pub open spec fn others(self) -> Seq<Address> {
        other_hosts(self.local, self.devices)
    }

    /// The other host in a call or playing media, if one is reported.
    pub open spec fn active_other(self) -> Option<Address> {
        match self.audio_source {
            Some((a, status)) => if status != AudioSourceStatus::Idle && !self.is_local(a) {
                Some(a)
            } else {
                None
            },
            None => None,
        }
    }

    /// Another host is in a call.
    pub open spec fn other_in_call(self) -> bool {
        self.audio_source matches Some((a, status)) && status == AudioSourceStatus::Call
            && !self.is_local(a)
    }

    /// Another host holds the audio, or this host gave it up.
    pub open spec fn owned_elsewhere(self) -> bool {
        self.released || self.owner == HandoffOwner::Other || self.active_other() is Some
    }

    /// A Playing edge now would be a player resuming itself, not the user.
    pub open spec fn in_hold_window(self, now: Instant) -> bool {
        self.held && (within(self.hold_from, now, PAUSE_HOLD) || within(
            self.audio_changed,
            now,
            AUDIO_CHANGE_HOLD,
        ))
    }

    /// Reports now belong to the link's opening state dump: the later of
    /// [`OPENING_WINDOW`] and the settings dump ending, capped at
    /// [`OPENING_WINDOW_MAX`].
    pub open spec fn in_opening(self, now: Instant) -> bool {
        within(self.opened_at, now, OPENING_WINDOW_MAX) && (within(
            self.opened_at,
            now,
            OPENING_WINDOW,
        ) || !self.opening_settled)
    }

    /// The playing player has not been paused again since the latest request.
    pub open spec fn may_repause(self) -> bool {
        !self.repaused.contains(self.playing_player)
    }

    /// The app to announce.
    pub open spec fn app(self) -> Seq<char> {
        match self.playing_app {
            Some(app) => app,
            None => PLAYING_APP_UNKNOWN@,
        }
    }

    /// A local player is playing, or stopped too recently to count as stopped.
    pub open spec fn wants_stream(self, now: Instant) -> bool {
        self.playing == Some(true) || self.play_edge is Some || within(
            self.last_play,
            now,
            PLAYBACK_STOPPED,
        )
    }

    /// A real yield request: restarts every player's re-pause allowance.
    pub open spec fn after_request(self, now: Instant) -> HandoffModel {
        HandoffModel { last_request: Some(now), repaused: Seq::empty(), ..self }
    }

    /// Already gave the audio up: a new request renews the hold.
    pub open spec fn after_renewed_hold(self, now: Instant) -> HandoffModel {
        HandoffModel { held: true, hold_from: Some(now), play_edge: None, ..self }
    }

    /// The playing player is paused again.
    pub open spec fn after_repause(self, now: Instant) -> HandoffModel {
        HandoffModel {
            hold_from: Some(now),
            play_edge: None,
            repaused: self.repaused.push(self.playing_player),
            ..self
        }
    }

    /// The re-pause itself.
    pub open spec fn repause_action(self) -> Seq<ActionModel> {
        seq![ActionModel::RepausePlayer { player: self.playing_player }]
    }

    /// The take-over's checks, grace and re-announcement are forgotten.
    pub open spec fn after_stream_start(self) -> HandoffModel {
        HandoffModel {
            stopped_at: None,
            took_over_at: None,
            stream_check: None,
            reannounce: false,
            ..self
        }
    }

    /// Everything that belongs to one link is forgotten.
    pub open spec fn after_link_reset(self) -> HandoffModel {
        HandoffModel {
            owner: HandoffOwner::Unknown,
            audio_source: None,
            devices: Seq::empty(),
            released: false,
            held: false,
            hold_from: None,
            opened_at: None,
            opening_settled: false,
            last_request: None,
            repaused: Seq::empty(),
            playing: None,
            play_edge: None,
            announced: None,
            ..self.after_stream_start()
        }
    }

    /// The audio has been given up.
    pub open spec fn after_yield(self, now: Instant) -> HandoffModel {
        HandoffModel {
            owner: HandoffOwner::Other,
            released: true,
            ..self
        }.after_request(now).after_renewed_hold(now).after_stream_start()
    }

    /// The audio has been taken.
    pub open spec fn after_take_over(self, now: Instant) -> HandoffModel {
        HandoffModel {
            owner: HandoffOwner::Local,
            released: false,
            held: false,
            play_edge: None,
            stopped_at: None,
            took_over_at: Some(now),
            stream_check: if self.transport_active is Some {
                Some((now + STREAM_CHECK) as u128)
            } else {
                None
            },
            reannounce: self.transport_active == Some(false),
            announced: Some(true),
            ..self
        }
    }

    /// What a take-over does, in order: the card goes to A2DP before any AAP
    /// write, then ownership, then word to every other host.
    pub open spec fn take_over_actions(self) -> Seq<ActionModel> {
        let others = self.others();
        let peer = if others.len() > 0 {
            Some(others[0])
        } else {
            self.active_other()
        };
        seq![
            ActionModel::SetAudioRoute(RouteMode::Own),
            ActionModel::SendOwnership(true),
        ] + media_infos(others, true, self.app()) + hijacks(others) + seq![
            ActionModel::ClaimAudio,
            ActionModel::Record { kind: HandoffEventKind::TookOver, peer },
        ]
    }
}

/// What a yield does, in order: pause, take the card off the AirPods, and
/// only then say the audio is theirs.
pub open spec fn yield_actions(
    announce: bool,
    kind: HandoffEventKind,
    peer: Option<Address>,
) -> Seq<ActionModel> {
    let head = seq![
        ActionModel::PauseLocalPlayers,
        ActionModel::SetAudioRoute(RouteMode::Yielded),
    ];
    let said = if announce {
        head.push(ActionModel::SendOwnership(false))
    } else {
        head
    };
    said.push(ActionModel::Record { kind, peer })
}

/// A state and the actions that led to it.
pub type Step = (HandoffModel, Seq<ActionModel>);

/// The state alone changes.
pub open spec fn quiet(m: HandoffModel) -> Step {
    (m, Seq::empty())
}

/// `HostStreamingState` goes to every other listed host.
pub open spec fn announced(m: HandoffModel, streaming: bool) -> Step {
    (
        HandoffModel { announced: Some(streaming), ..m },
        media_infos(m.others(), streaming, m.app()),
    )
}

/// The host is asked to pause its playing player again.
pub open spec fn repaused(m: HandoffModel, now: Instant) -> Step {
    (m.after_repause(now), m.repause_action())
}

/// An audio-source report, status known.
pub open spec fn on_source(
    m0: HandoffModel,
    address: Address,
    status: AudioSourceStatus,
    now: Instant,
) -> Step {
    let m = HandoffModel { audio_source: Some((address, status)), ..m0 };
    if m.local is None {
        quiet(m)
    } else if status == AudioSourceStatus::Idle || m.is_local(address) {
        let m1 = if status != AudioSourceStatus::Idle {
            HandoffModel { owner: HandoffOwner::Local, audio_changed: Some(now), ..m }
        } else {
            m
        };
        if !m.held || m.in_opening(now) {
            quiet(m1)
        } else if !within(m.last_request, now, REQUEST_RECENT) {
            quiet(HandoffModel { held: false, ..m1 })
        } else if m.is_local(address) && status == AudioSourceStatus::Media && m.play_edge is None
            && m.may_repause() {
            repaused(m1, now)
        } else {
            quiet(m1)
        }
    } else {
        let m1 = HandoffModel { owner: HandoffOwner::Other, ..m };
        if m.in_opening(now) || m0.audio_source == Some((address, status)) || !m.enabled {
            quiet(m1)
        } else if m.released {
            quiet(m1.after_request(now).after_renewed_hold(now))
        } else {
            (
                m1.after_yield(now),
                yield_actions(true, HandoffEventKind::Yielded, Some(address)),
            )
        }
    }
}

/// A list of connected hosts.
pub open spec fn on_devices(m: HandoffModel, list: Seq<Address>, now: Instant) -> Step {
    let m1 = HandoffModel { devices: list, ..m };
    if m.in_opening(now) || !m.enabled || m.owner != HandoffOwner::Local || m.local is None {
        quiet(m1)
    } else {
        (m1, introductions(joined_hosts(m.local, m.devices, list)))
    }
}

/// The AirPods say whether this host owns the connection.
pub open spec fn on_owns(m: HandoffModel, owns: bool, opening: bool, now: Instant) -> Step {
    if owns {
        quiet(HandoffModel { owner: HandoffOwner::Local, ..m })
    } else {
        let m1 = HandoffModel { owner: HandoffOwner::Other, ..m };
        if !m.enabled || opening || m.in_opening(now) {
            quiet(m1)
        } else if m.released {
            quiet(m1.after_request(now))
        } else {
            (
                m1.after_yield(now),
                yield_actions(false, HandoffEventKind::Yielded, m.active_other()),
            )
        }
    }
}

/// A smart-routing message from another host.
pub open spec fn on_routing(
    m: HandoffModel,
    sender: Address,
    requests_yield: bool,
    now: Instant,
) -> Step {
    if !requests_yield || m.is_local(sender) {
        quiet(m)
    } else {
        let m1 = HandoffModel { owner: HandoffOwner::Other, ..m };
        if !m.enabled {
            quiet(m1)
        } else if m.released {
            let m2 = m1.after_request(now).after_renewed_hold(now);
            if m.playing == Some(true) {
                repaused(m2, now)
            } else {
                quiet(m2)
            }
        } else {
            (
                m1.after_yield(now),
                yield_actions(true, HandoffEventKind::YieldRequested, Some(sender)),
            )
        }
    }
}

/// A local playback reading.
pub open spec fn on_playback(
    m: HandoffModel,
    playing: bool,
    app: Option<Seq<char>>,
    player: Option<Seq<char>>,
    now: Instant,
) -> Step {
    let m1 = HandoffModel {
        playing: Some(playing),
        playing_app: if app is Some {
            app
        } else {
            m.playing_app
        },
        playing_player: if player is Some {
            player
        } else {
            m.playing_player
        },
        last_play: if playing || m.playing == Some(true) {
            Some(now)
        } else {
            m.last_play
        },
        ..m
    };
    if m.playing == Some(false) && playing {
        if m1.in_hold_window(now) && m1.may_repause() {
            repaused(m1, now)
        } else {
            let m2 = HandoffModel { play_edge: Some(now), stopped_at: None, ..m1 };
            if m2.enabled && m2.link_up && m2.owns() && m2.transport_active == Some(true)
                && m2.announced == Some(false) {
                announced(m2, true)
            } else {
                quiet(m2)
            }
        }
    } else if m.playing == Some(true) && !playing {
        quiet(HandoffModel { play_edge: None, stopped_at: Some(now), ..m1 })
    } else {
        quiet(m1)
    }
}

/// A report on the A2DP transport.
pub open spec fn on_transport(m: HandoffModel, active: bool) -> Step {
    let m1 = HandoffModel { transport_active: Some(active), ..m };
    if !active || m.transport_active == Some(true) || !m.link_up || !m.owns() {
        quiet(m1)
    } else {
        let m2 = HandoffModel { stream_check: None, reannounce: false, ..m1 };
        if m.reannounce || (m.enabled && m.playing == Some(true) && m.announced == Some(false)) {
            announced(m2, true)
        } else {
            quiet(m2)
        }
    }
}

/// A take-over whose A2DP stream never started is reported once.
pub open spec fn stream_tick(m: HandoffModel, now: Instant) -> Step {
    match m.stream_check {
        Some(due) => if now < due {
            quiet(m)
        } else {
            let m1 = HandoffModel { stream_check: None, ..m };
            if m.link_up && m.owns() && m.transport_active == Some(false) && m.wants_stream(now) {
                (m1, seq![ActionModel::StreamNotStarted])
            } else {
                quiet(m1)
            }
        },
        None => quiet(m),
    }
}

/// `HostStreamingState NO` once local playback has stayed stopped for
/// [`PLAYBACK_STOPPED`], never inside the take-over's [`STREAM_GRACE`].
pub open spec fn stop_tick(m: HandoffModel, now: Instant) -> Step {
    match m.stopped_at {
        Some(stopped) => if m.playing != Some(false) {
            quiet(HandoffModel { stopped_at: None, ..m })
        } else if elapsed(now, stopped) < PLAYBACK_STOPPED || within(
            m.took_over_at,
            now,
            STREAM_GRACE,
        ) {
            quiet(m)
        } else {
            let m1 = HandoffModel { stopped_at: None, ..m };
            if m.enabled && m.link_up && m.owns() && m.announced != Some(false) {
                announced(m1, false)
            } else {
                quiet(m1)
            }
        },
        None => quiet(m),
    }
}

/// A local play that lasted the debounce is the user's; where another host
/// has the audio and switching is on, it takes over.
pub open spec fn play_tick(m: HandoffModel, now: Instant) -> Step {
    match m.play_edge {
        Some(edge) => if elapsed(now, edge) < PLAY_DEBOUNCE {
            quiet(m)
        } else {
            let m1 = HandoffModel { play_edge: None, ..m };
            if m.playing != Some(true) {
                quiet(m1)
            } else {
                let m2 = HandoffModel { held: false, ..m1 };
                if m.enabled && m.take_over_on_play && m.link_up && m.local is Some
                    && !m.other_in_call() && m.owned_elsewhere() {
                    (m2.after_take_over(now), m2.take_over_actions())
                } else {
                    quiet(m2)
                }
            }
        },
        None => quiet(m),
    }
}

/// The periodic tick: the three checks, one after the other.
#[verifier::opaque]
pub open spec fn on_tick(m: HandoffModel, now: Instant) -> Step {
    let (m1, a1) = stream_tick(m, now);
    let (m2, a2) = stop_tick(m1, now);
    let (m3, a3) = play_tick(m2, now);
    (m3, a1 + a2 + a3)
}

/// The whole state machine: the state after one event, and what to do.
#[verifier::opaque]
pub open spec fn step(m: HandoffModel, event: Event, now: Instant) -> Step {
    match event {
        Event::LinkOpened => quiet(
            HandoffModel { link_up: true, opened_at: Some(now), ..m.after_link_reset() },
        ),
        Event::OpeningSettled => quiet(HandoffModel { opening_settled: true, ..m }),
        Event::LinkClosed => quiet(HandoffModel { link_up: false, ..m.after_link_reset() }),
        Event::AudioSource { address, state } => match state {
            AudioSourceState::Idle => on_source(m, address, AudioSourceStatus::Idle, now),
            AudioSourceState::Call => on_source(m, address, AudioSourceStatus::Call, now),
            AudioSourceState::Media => on_source(m, address, AudioSourceStatus::Media, now),
            AudioSourceState::Other(_) => quiet(m),
        },
        Event::ConnectedDevices(list) => on_devices(m, list@, now),
        Event::OwnsConnection { owns, opening } => on_owns(m, owns, opening, now),
        Event::SmartRouting { sender, requests_yield } => on_routing(
            m,
            sender,
            requests_yield,
            now,
        ),
        Event::Playback { playing, app, player } => on_playback(
            m,
            playing,
            text_view(app),
            text_view(player),
            now,
        ),
        Event::AudioLinkChanged => quiet(HandoffModel { audio_changed: Some(now), ..m }),
        Event::A2dpTransport { active } => on_transport(m, active),
        Event::Tick => on_tick(m, now),
        Event::TakeOver => (m.after_take_over(now), m.take_over_actions()),
        Event::Yield => (
            m.after_yield(now),
            yield_actions(true, HandoffEventKind::Yielded, None),
        ),
    }
}

/// What a list of connected hosts does depends on the hosts alone.
pub(crate) proof fn devices_step(m: HandoffModel, list: Vec<Address>, now: Instant)
    ensures
        step(m, Event::ConnectedDevices(list), now) == on_devices(m, list@, now),
{
    reveal(step);
}

/// Everything [`decide`] needs to remember.
#[derive(Debug, Clone)]
pub struct HandoffState {
    /// Automatic switching is on.
    pub enabled: bool,
    /// Take over when a local player starts.
    pub take_over_on_play: bool,
    /// Local adapter Modalias names Apple.
    pub apple_host_id: Option<bool>,
    /// Local adapter address.
    pub local: Option<Address>,
    /// Latest published handoff.
    pub last_event: Option<HandoffEvent>,
    /// An AAP link is up.
    pub link_up: bool,
    /// Who holds the audio.
    pub owner: HandoffOwner,
    /// Latest audio-source report.
    pub audio_source: Option<(Address, AudioSourceStatus)>,
    /// Latest list of hosts.
    pub devices: Vec<Address>,
    /// This host gave the audio up and has not taken it back on this link.
    pub released: bool,
    /// Yielded hold: local Playing edges are checked for auto-resume.
    pub held: bool,
    /// Latest pause of ours, or latest request of the peer, while held.
    pub hold_from: Option<Instant>,
    /// When the current link opened.
    pub opened_at: Option<Instant>,
    /// The link's opening settings dump has ended.
    pub opening_settled: bool,
    /// Latest real yield request.
    pub last_request: Option<Instant>,
    /// Players paused again since `last_request`: one automatic re-pause each.
    pub repaused: Vec<Option<String>>,
    /// Latest audio link change.
    pub audio_changed: Option<Instant>,
    /// Latest playback reading since start or link open.
    pub playing: Option<bool>,
    /// Latest known playing app.
    pub playing_app: Option<String>,
    /// Latest known playing player.
    pub playing_player: Option<String>,
    /// A play that may turn out to be the user's began then.
    pub play_edge: Option<Instant>,
    /// Latest time a local player was seen Playing.
    pub last_play: Option<Instant>,
    /// Local playback stopped then; `HostStreamingState NO` is undecided.
    pub stopped_at: Option<Instant>,
    /// The A2DP transport is pending or active.
    pub transport_active: Option<bool>,
    /// Latest take-over.
    pub took_over_at: Option<Instant>,
    /// Warn if the stream has not started by then.
    pub stream_check: Option<Instant>,
    /// Say streaming once more when the transport becomes active.
    pub reannounce: bool,
    /// Latest `HostStreamingState` sent on this link.
    pub announced: Option<bool>,
}

/// The published section says what the state holds.
pub open spec fn publishes(h: Handoff, m: HandoffModel) -> bool {
    &&& h.enabled == m.enabled
    &&& h.take_over_on_play == m.take_over_on_play
    &&& h.apple_host_id == m.apple_host_id
    &&& h.owner == m.owner
    &&& match (h.audio_source, m.audio_source) {
        (Some(s), Some((address, status))) => s.address@ == address.text() && s.is_local
            == m.is_local(address) && s.state == status,
        (None, None) => true,
        _ => false,
    }
    &&& h.devices@.len() == m.devices.len()
    &&& forall|i: int|
        0 <= i < m.devices.len() ==> (#[trigger] h.devices@[i]).address@ == m.devices[i].text()
            && h.devices@[i].is_local == m.is_local(m.devices[i])
    &&& recorded_view(h.last_event) == m.last_event
}

/// The handoff section that was published last.
#[derive(Debug, Clone)]
pub struct Published {
    last: Handoff,
}

impl Published {
    /// What the section published last says.
    pub closed spec fn said(self) -> HandoffView {
        self.last@
    }

    /// Before anything was published.
    pub fn new() -> (r: Self)
        ensures
            r.said() == (HandoffView {
                enabled: false,
                take_over_on_play: false,
                apple_host_id: None,
                owner: HandoffOwner::Unknown,
                audio_source: None,
                devices: Seq::empty(),
                last_event: None,
            }),
    {
        let r = Published { last: Handoff::default() };
        proof {
            assert(r.last@.devices =~= Seq::empty());
        }
        r
    }

    /// The section to publish, or nothing while it says what was published
    /// last.
    pub fn news(&mut self, section: Handoff) -> (r: Option<Handoff>)
        ensures
            r == (if section@ == old(self).said() {
                None
            } else {
                Some(section)
            }),
            final(self).said() == section@,
    {
        if section.is_same(&self.last) {
            return None;
        }
        self.last = section.clone();
        Some(section)
    }
}

/// The written address of the other host, if there is one.
pub open spec fn peer_text(peer: Option<Address>) -> Option<Seq<char>> {
    match peer {
        Some(a) => Some(a.text()),
        None => None,
    }
}

/// Appends media information for each of the hosts.
fn push_media_infos(
    actions: &mut Vec<Action>,
    targets: &Vec<Address>,
    streaming: bool,
    app: &String,
)
    ensures
        action_views(final(actions)@) == action_views(old(actions)@) + media_infos(
            targets@,
            streaming,
            app@,
        ),
{
    let ghost before = action_views(actions@);
    let mut i: usize = 0;
    proof {
        assert(before + media_infos(targets@, streaming, app@).take(0) =~= before);
    }
    while i < targets.len()
        invariant
            i <= targets.len(),
            action_views(actions@) == before + media_infos(targets@, streaming, app@).take(
                i as int,
            ),
        decreases targets.len() - i,
    {
        let ghost so_far = actions@;
        let action = Action::SendMediaInfo { target: targets[i], streaming, app: app.clone() };
        actions.push(action);
        proof {
            let all = media_infos(targets@, streaming, app@);
            assert(action_views(actions@) =~= action_views(so_far).push(action@));
            assert(all.take(i as int + 1) =~= all.take(i as int).push(all[i as int]));
            assert(action_views(actions@) =~= before + all.take(i as int + 1));
        }
        i = i + 1;
    }
    proof {
        let all = media_infos(targets@, streaming, app@);
        assert(all.take(all.len() as int) =~= all);
    }
}

/// Appends a hijack request for each of the hosts.
fn push_hijacks(actions: &mut Vec<Action>, targets: &Vec<Address>)
    ensures
        action_views(final(actions)@) == action_views(old(actions)@) + hijacks(targets@),
{
    let ghost before = action_views(actions@);
    let mut i: usize = 0;
    proof {
        assert(before + hijacks(targets@).take(0) =~= before);
    }
    while i < targets.len()
        invariant
            i <= targets.len(),
            action_views(actions@) == before + hijacks(targets@).take(i as int),
        decreases targets.len() - i,
    {
        let ghost so_far = actions@;
        let action = Action::SendHijack { target: targets[i] };
        actions.push(action);
        proof {
            let all = hijacks(targets@);
            assert(action_views(actions@) =~= action_views(so_far).push(action@));
            assert(all.take(i as int + 1) =~= all.take(i as int).push(all[i as int]));
            assert(action_views(actions@) =~= before + all.take(i as int + 1));
        }
        i = i + 1;
    }
    proof {
        let all = hijacks(targets@);
        assert(all.take(all.len() as int) =~= all);
    }
}

/// Whether the list holds the address.
fn lists(devices: &Vec<Address>, address: Address) -> (r: bool)
    ensures
        r == devices@.contains(address),
{
    let mut i: usize = 0;
    while i < devices.len()
        invariant
            i <= devices.len(),
            forall|k: int| 0 <= k < i ==> devices@[k] != address,
        decreases devices.len() - i,
    {
        if devices[i] == address {
            assert(devices@[i as int] == address);
            return true;
        }
        i = i + 1;
    }
    false
}

impl HandoffState {
    /// The state as mathematical values.
    pub closed spec fn model(self) -> HandoffModel {
        HandoffModel {
            enabled: self.enabled,
            take_over_on_play: self.take_over_on_play,
            apple_host_id: self.apple_host_id,
            local: self.local,
            last_event: recorded_view(self.last_event),
            link_up: self.link_up,
            owner: self.owner,
            audio_source: self.audio_source,
            devices: self.devices@,
            released: self.released,
            held: self.held,
            hold_from: self.hold_from,
            opened_at: self.opened_at,
            opening_settled: self.opening_settled,
            last_request: self.last_request,
            repaused: self.repaused@.map_values(|p: Option<String>| text_view(p)),
            audio_changed: self.audio_changed,
            playing: self.playing,
            playing_app: text_view(self.playing_app),
            playing_player: text_view(self.playing_player),
            play_edge: self.play_edge,
            last_play: self.last_play,
            stopped_at: self.stopped_at,
            transport_active: self.transport_active,
            took_over_at: self.took_over_at,
            stream_check: self.stream_check,
            reannounce: self.reannounce,
            announced: self.announced,
        }
    }

    /// The fields are what [`decide`] goes by, each of them as it stands: a
    /// field that is set shows in the model, and nothing else changes there.
    pub proof fn fields_are_the_model(self)
        ensures
            self.model() == (HandoffModel {
                enabled: self.enabled,
                take_over_on_play: self.take_over_on_play,
                apple_host_id: self.apple_host_id,
                local: self.local,
                last_event: recorded_view(self.last_event),
                link_up: self.link_up,
                owner: self.owner,
                audio_source: self.audio_source,
                devices: self.devices@,
                released: self.released,
                held: self.held,
                hold_from: self.hold_from,
                opened_at: self.opened_at,
                opening_settled: self.opening_settled,
                last_request: self.last_request,
                repaused: self.repaused@.map_values(|p: Option<String>| text_view(p)),
                audio_changed: self.audio_changed,
                playing: self.playing,
                playing_app: text_view(self.playing_app),
                playing_player: text_view(self.playing_player),
                play_edge: self.play_edge,
                last_play: self.last_play,
                stopped_at: self.stopped_at,
                transport_active: self.transport_active,
                took_over_at: self.took_over_at,
                stream_check: self.stream_check,
                reannounce: self.reannounce,
                announced: self.announced,
            }),
    {
    }

    /// Turn automatic switching on or off.
    pub fn set_enabled(&mut self, enabled: bool)
        ensures
            final(self).model() == (HandoffModel { enabled, ..old(self).model() }),
    {
        self.enabled = enabled;
    }

    /// Apply the configuration.
    pub fn configure(&mut self, enabled: bool, take_over_on_play: bool)
        ensures
            final(self).model() == (HandoffModel { enabled, take_over_on_play, ..old(self).model() }),
    {
        self.enabled = enabled;
        self.take_over_on_play = take_over_on_play;
    }

    /// Whether automatic switching is on.
    pub fn is_enabled(&self) -> (r: bool)
        ensures
            r == self.model().enabled,
    {
        self.enabled
    }

    /// Learn the local adapter's address.
    pub fn set_local(&mut self, local: Address)
        ensures
            final(self).model() == (HandoffModel { local: Some(local), ..old(self).model() }),
    {
        self.local = Some(local);
    }

    /// Learn whether the local adapter names Apple.
    pub fn set_apple_host_id(&mut self, apple_host_id: Option<bool>)
        ensures
            final(self).model() == (HandoffModel { apple_host_id, ..old(self).model() }),
    {
        self.apple_host_id = apple_host_id;
    }

    /// Fresh state: nothing reported, no link.
    pub fn new(enabled: bool, take_over_on_play: bool) -> (r: Self)
        ensures
            r.model() == HandoffModel::fresh(enabled, take_over_on_play),
    {
        let s = HandoffState {
            enabled,
            take_over_on_play,
            apple_host_id: None,
            local: None,
            last_event: None,
            link_up: false,
            owner: HandoffOwner::Unknown,
            audio_source: None,
            devices: Vec::new(),
            released: false,
            held: false,
            hold_from: None,
            opened_at: None,
            opening_settled: false,
            last_request: None,
            repaused: Vec::new(),
            audio_changed: None,
            playing: None,
            playing_app: None,
            playing_player: None,
            play_edge: None,
            last_play: None,
            stopped_at: None,
            transport_active: None,
            took_over_at: None,
            stream_check: None,
            reannounce: false,
            announced: None,
        };
        proof {
            assert(s.model() =~= HandoffModel::fresh(enabled, take_over_on_play));
        }
        s
    }

    /// The AirPods last said this host owns them and it has not yielded. A
    /// profile claim in flight stops retrying once this is false.
    pub fn owns_audio(&self) -> (r: bool)
        ensures
            r == self.model().owns(),
    {
        self.owner == HandoffOwner::Local && !self.released
    }

    fn is_local(&self, address: Address) -> (r: bool)
        ensures
            r == self.model().is_local(address),
    {
        self.local == Some(address)
    }

    fn others(&self) -> (r: Vec<Address>)
        ensures
            r@ == self.model().others(),
    {
        let mut out: Vec<Address> = Vec::new();
        let mut i: usize = 0;
        while i < self.devices.len()
            invariant
                i <= self.devices.len(),
                out@ == other_hosts(self.local, self.devices@.take(i as int)),
            decreases self.devices.len() - i,
        {
            let a = self.devices[i];
            proof {
                let next = self.devices@.take(i as int + 1);
                assert(next.drop_last() =~= self.devices@.take(i as int));
                assert(next.last() == a);
            }
            if !self.is_local(a) {
                out.push(a);
            }
            i = i + 1;
        }
        proof {
            assert(self.devices@.take(self.devices@.len() as int) =~= self.devices@);
        }
        out
    }

    fn active_other_source(&self) -> (r: Option<Address>)
        ensures
            r == self.model().active_other(),
    {
        match self.audio_source {
            Some((a, status)) => if status != AudioSourceStatus::Idle && !self.is_local(a) {
                Some(a)
            } else {
                None
            },
            None => None,
        }
    }

    fn other_in_call(&self) -> (r: bool)
        ensures
            r == self.model().other_in_call(),
    {
        match self.audio_source {
            Some((a, status)) => status == AudioSourceStatus::Call && !self.is_local(a),
            None => false,
        }
    }

    /// Another host holds the audio, or this host gave it up.
    fn owned_elsewhere(&self) -> (r: bool)
        ensures
            r == self.model().owned_elsewhere(),
    {
        self.released || self.owner == HandoffOwner::Other || self.active_other_source().is_some()
    }

    /// A Playing edge now would be a player resuming itself, not the user.
    fn in_hold_window(&self, now: Instant) -> (r: bool)
        ensures
            r == self.model().in_hold_window(now),
    {
        self.held && (is_within(self.hold_from, now, PAUSE_HOLD) || is_within(
            self.audio_changed,
            now,
            AUDIO_CHANGE_HOLD,
        ))
    }

    /// Reports now belong to the link's opening state dump.
    fn in_opening(&self, now: Instant) -> (r: bool)
        ensures
            r == self.model().in_opening(now),
    {
        match self.opened_at {
            Some(opened) => {
                let age: Duration = since(now, opened);
                age < OPENING_WINDOW_MAX && (age < OPENING_WINDOW || !self.opening_settled)
            },
            None => false,
        }
    }

    fn recent_request(&self, now: Instant) -> (r: bool)
        ensures
            r == within(self.model().last_request, now, REQUEST_RECENT),
    {
        is_within(self.last_request, now, REQUEST_RECENT)
    }

    /// A real yield request: restarts every player's re-pause allowance.
    fn note_request(&mut self, now: Instant)
        ensures
            final(self).model() == old(self).model().after_request(now),
    {
        self.last_request = Some(now);
        self.repaused.clear();
        proof {
            assert(self.model() =~= old(self).model().after_request(now));
        }
    }

    /// Already gave the audio up: a new request renews the hold.
    fn renew_hold(&mut self, now: Instant)
        ensures
            final(self).model() == old(self).model().after_renewed_hold(now),
    {
        self.held = true;
        self.hold_from = Some(now);
        self.play_edge = None;
    }

    /// The playing player has not been paused again since the latest request.
    fn may_repause(&self) -> (r: bool)
        ensures
            r == self.model().may_repause(),
    {
        let ghost seen = self.model().repaused;
        let mut i: usize = 0;
        while i < self.repaused.len()
            invariant
                i <= self.repaused.len(),
                seen == self.model().repaused,
                seen.len() == self.repaused@.len(),
                forall|k: int|
                    0 <= k < seen.len() ==> seen[k] == text_view(#[trigger] self.repaused@[k]),
                forall|k: int| 0 <= k < i ==> seen[k] != text_view(self.playing_player),
            decreases self.repaused.len() - i,
        {
            if same_optional(&self.repaused[i], &self.playing_player) {
                proof {
                    assert(seen[i as int] == text_view(self.repaused@[i as int]));
                }
                return false;
            }
            proof {
                assert(seen[i as int] == text_view(self.repaused@[i as int]));
            }
            i = i + 1;
        }
        true
    }

    fn repause(&mut self, now: Instant) -> (r: Vec<Action>)
        ensures
            (final(self).model(), action_views(r@)) == repaused(old(self).model(), now),
    {
        self.hold_from = Some(now);
        self.play_edge = None;
        self.repaused.push(self.playing_player.clone());
        let actions: Vec<Action> = vec![
            Action::RepausePlayer { player: self.playing_player.clone() },
        ];
        proof {
            assert(self.model() =~= old(self).model().after_repause(now));
            assert(action_views(actions@) =~= old(self).model().repause_action());
        }
        actions
    }

    fn app(&self) -> (r: String)
        ensures
            r@ == self.model().app(),
    {
        match &self.playing_app {
            Some(app) => app.clone(),
            None => PLAYING_APP_UNKNOWN.to_owned(),
        }
    }

    /// Store the event behind an [`Action::Record`].
    pub fn record(&mut self, kind: HandoffEventKind, peer: Option<Address>, at: String)
        ensures
            final(self).model() == (HandoffModel {
                last_event: Some(RecordedModel { kind, at: at@, peer: peer_text(peer) }),
                ..old(self).model()
            }),
    {
        let peer = match peer {
            Some(p) => Some(p.to_string()),
            None => None,
        };
        self.last_event = Some(HandoffEvent { kind, at, peer });
    }

    /// The published state.json object.
    pub fn view(&self) -> (r: Handoff)
        ensures
            publishes(r, self.model()),
    {
        let audio_source = match self.audio_source {
            Some((address, state)) => Some(
                HandoffAudioSource {
                    address: address.to_string(),
                    is_local: self.is_local(address),
                    state,
                },
            ),
            None => None,
        };
        let mut devices: Vec<HandoffDevice> = Vec::new();
        let mut i: usize = 0;
        while i < self.devices.len()
            invariant
                i <= self.devices.len(),
                devices@.len() == i,
                forall|k: int|
                    0 <= k < i ==> (#[trigger] devices@[k]).address@ == self.devices@[k].text()
                        && devices@[k].is_local == self.model().is_local(self.devices@[k]),
            decreases self.devices.len() - i,
        {
            let a = self.devices[i];
            devices.push(HandoffDevice { address: a.to_string(), is_local: self.is_local(a) });
            i = i + 1;
        }
        Handoff {
            enabled: self.enabled,
            take_over_on_play: self.take_over_on_play,
            apple_host_id: self.apple_host_id,
            owner: self.owner,
            audio_source,
            devices,
            last_event: self.last_event.clone(),
        }
    }

    fn reset_link(&mut self)
        ensures
            final(self).model() == old(self).model().after_link_reset(),
    {
        self.owner = HandoffOwner::Unknown;
        self.audio_source = None;
        self.devices.clear();
        self.released = false;
        self.held = false;
        self.hold_from = None;
        self.opened_at = None;
        self.opening_settled = false;
        self.last_request = None;
        self.repaused.clear();
        self.playing = None;
        self.play_edge = None;
        self.end_stream_start();
        self.announced = None;
        proof {
            assert(self.model() =~= old(self).model().after_link_reset());
        }
    }

    /// Forget the take-over's stream start: checks, grace and re-announcement.
    fn end_stream_start(&mut self)
        ensures
            final(self).model() == old(self).model().after_stream_start(),
    {
        self.stopped_at = None;
        self.took_over_at = None;
        self.stream_check = None;
        self.reannounce = false;
    }

    /// `HostStreamingState` to every other listed host.
    fn announce(&mut self, streaming: bool) -> (r: Vec<Action>)
        ensures
            (final(self).model(), action_views(r@)) == announced(old(self).model(), streaming),
    {
        self.announced = Some(streaming);
        let app = self.app();
        let others = self.others();
        let mut actions: Vec<Action> = Vec::new();
        push_media_infos(&mut actions, &others, streaming, &app);
        proof {
            assert(action_views(actions@) =~= media_infos(others@, streaming, app@));
        }
        actions
    }

    fn in_stream_grace(&self, now: Instant) -> (r: bool)
        ensures
            r == within(self.model().took_over_at, now, STREAM_GRACE),
    {
        is_within(self.took_over_at, now, STREAM_GRACE)
    }

    /// A local player is playing, or stopped too recently to count as stopped.
    fn wants_stream(&self, now: Instant) -> (r: bool)
        ensures
            r == self.model().wants_stream(now),
    {
        self.playing == Some(true) || self.play_edge.is_some() || is_within(
            self.last_play,
            now,
            PLAYBACK_STOPPED,
        )
    }

    /// Report a take-over whose A2DP stream never started. The take-over has
    /// already put the card back on its A2DP profile; if the transport is
    /// still idle after [`STREAM_CHECK`], saying so once is all that is
    /// useful.
    fn stream_tick(&mut self, now: Instant) -> (r: Vec<Action>)
        ensures
            (final(self).model(), action_views(r@)) == stream_tick(old(self).model(), now),
    {
        let mut actions: Vec<Action> = Vec::new();
        let ghost none = action_views(actions@);
        proof {
            assert(none =~= Seq::empty());
        }
        if let Some(due) = self.stream_check {
            if now >= due {
                self.stream_check = None;
                if self.link_up && self.owns_audio() && self.transport_active == Some(false)
                    && self.wants_stream(now) {
                    actions.push(Action::StreamNotStarted);
                    proof {
                        assert(action_views(actions@) =~= seq![ActionModel::StreamNotStarted]);
                    }
                }
            }
        }
        actions
    }

    /// `HostStreamingState NO` once local playback has stayed stopped for
    /// [`PLAYBACK_STOPPED`], never inside the take-over's [`STREAM_GRACE`].
    fn stop_tick(&mut self, now: Instant) -> (r: Vec<Action>)
        ensures
            (final(self).model(), action_views(r@)) == stop_tick(old(self).model(), now),
    {
        let actions: Vec<Action> = Vec::new();
        proof {
            assert(action_views(actions@) =~= Seq::empty());
        }
        let stopped: Instant = match self.stopped_at {
            Some(t) => t,
            None => {
                return actions;
            },
        };
        if self.playing != Some(false) {
            self.stopped_at = None;
            return actions;
        }
        if since(now, stopped) < PLAYBACK_STOPPED || self.in_stream_grace(now) {
            return actions;
        }
        self.stopped_at = None;
        if self.enabled && self.link_up && self.owns_audio() && self.announced != Some(false) {
            self.announce(false)
        } else {
            actions
        }
    }

    /// Give the audio up. Profiles stay connected.
    fn yield_steps(
        &mut self,
        now: Instant,
        announce: bool,
        kind: HandoffEventKind,
        peer: Option<Address>,
    ) -> (r: Vec<Action>)
        ensures
            final(self).model() == old(self).model().after_yield(now),
            action_views(r@) == yield_actions(announce, kind, peer),
    {
        self.owner = HandoffOwner::Other;
        self.released = true;
        self.note_request(now);
        self.renew_hold(now);
        self.end_stream_start();
        let mut actions: Vec<Action> = vec![
            Action::PauseLocalPlayers,
            Action::SetAudioRoute(RouteMode::Yielded),
        ];
        if announce {
            actions.push(Action::SendOwnership(false));
        }
        actions.push(Action::Record { kind, peer });
        proof {
            assert(action_views(actions@) =~= yield_actions(announce, kind, peer));
        }
        actions
    }

    /// Take the audio. The card profile goes back to A2DP before any AAP
    /// write, so the sink node is there before the player starts streaming.
    /// When BlueZ reports the A2DP transport, a check follows that audio
    /// actually flows.
    fn take_over_steps(&mut self, now: Instant) -> (r: Vec<Action>)
        requires
            now + STREAM_CHECK <= u128::MAX,
        ensures
            final(self).model() == old(self).model().after_take_over(now),
            action_views(r@) == old(self).model().take_over_actions(),
    {
        let others = self.others();
        let peer = if others.len() > 0 {
            Some(others[0])
        } else {
            self.active_other_source()
        };
        self.owner = HandoffOwner::Local;
        self.released = false;
        self.held = false;
        self.play_edge = None;
        self.stopped_at = None;
        self.took_over_at = Some(now);
        self.stream_check = if self.transport_active.is_some() {
            Some(now + STREAM_CHECK)
        } else {
            None
        };
        self.reannounce = self.transport_active == Some(false);
        self.announced = Some(true);
        let app = self.app();
        let mut actions: Vec<Action> = vec![
            Action::SetAudioRoute(RouteMode::Own),
            Action::SendOwnership(true),
        ];
        proof {
            assert(action_views(actions@) =~= seq![
                ActionModel::SetAudioRoute(RouteMode::Own),
                ActionModel::SendOwnership(true),
            ]);
        }
        push_media_infos(&mut actions, &others, true, &app);
        push_hijacks(&mut actions, &others);
        let ghost head = action_views(actions@);
        actions.push(Action::ClaimAudio);
        actions.push(Action::Record { kind: HandoffEventKind::TookOver, peer });
        proof {
            assert(action_views(actions@) =~= head + seq![
                ActionModel::ClaimAudio,
                ActionModel::Record { kind: HandoffEventKind::TookOver, peer },
            ]);
            assert(self.model() =~= old(self).model().after_take_over(now));
        }
        actions
    }

    fn on_source(&mut self, address: Address, status: AudioSourceStatus, now: Instant) -> (r: Vec<
        Action,
    >)
        ensures
            (final(self).model(), action_views(r@)) == on_source(
                old(self).model(),
                address,
                status,
                now,
            ),
    {
        let nothing: Vec<Action> = Vec::new();
        proof {
            assert(action_views(nothing@) =~= Seq::empty());
        }
        let repeated = match self.audio_source {
            Some((a, s)) => a == address && s == status,
            None => false,
        };
        self.audio_source = Some((address, status));
        if self.local.is_none() {
            return nothing;
        }
        // The opening dump is state: it may describe a host that stopped
        // playing long ago.
        let opening = self.in_opening(now);
        if status == AudioSourceStatus::Idle || self.is_local(address) {
            if status != AudioSourceStatus::Idle {
                self.owner = HandoffOwner::Local;
                self.audio_changed = Some(now);
            }
            if !self.held || opening {
                return nothing;
            }
            // Nobody has asked for the AirPods lately: the hold is over.
            if !self.recent_request(now) {
                self.held = false;
                return nothing;
            }
            // Our stream leaked onto the AirPods while yielded. A pending play
            // edge is a user play whose audio just arrived: keep it.
            if self.is_local(address) && status == AudioSourceStatus::Media
                && self.play_edge.is_none() && self.may_repause() {
                return self.repause(now);
            }
            return nothing;
        }
        self.owner = HandoffOwner::Other;
        if opening || repeated || !self.enabled {
            return nothing;
        }
        if self.released {
            self.note_request(now);
            self.renew_hold(now);
            return nothing;
        }
        self.yield_steps(now, true, HandoffEventKind::Yielded, Some(address))
    }

    fn on_devices(&mut self, list: Vec<Address>, now: Instant) -> (r: Vec<Action>)
        ensures
            (final(self).model(), action_views(r@)) == on_devices(old(self).model(), list@, now),
    {
        let mut actions: Vec<Action> = Vec::new();
        proof {
            assert(action_views(actions@) =~= Seq::empty());
        }
        if self.in_opening(now) || !self.enabled || self.owner != HandoffOwner::Local
            || self.local.is_none() {
            self.devices = list;
            return actions;
        }
        let ghost known = self.devices@;
        let mut i: usize = 0;
        proof {
            assert(list@.take(0) =~= Seq::empty());
        }
        while i < list.len()
            invariant
                i <= list.len(),
                known == self.devices@,
                action_views(actions@) == introductions(
                    joined_hosts(self.local, known, list@.take(i as int)),
                ),
            decreases list.len() - i,
        {
            let a = list[i];
            proof {
                let next = list@.take(i as int + 1);
                assert(next.drop_last() =~= list@.take(i as int));
                assert(next.last() == a);
            }
            if !lists(&self.devices, a) && !self.is_local(a) {
                let ghost before = action_views(actions@);
                actions.push(Action::SendNewDeviceMediaInfo { target: a });
                actions.push(Action::SendNewTipi { target: a });
                proof {
                    let joined = joined_hosts(self.local, known, list@.take(i as int));
                    assert(joined.push(a).drop_last() =~= joined);
                    assert(action_views(actions@) =~= before.push(
                        ActionModel::SendNewDeviceMediaInfo { target: a },
                    ).push(ActionModel::SendNewTipi { target: a }));
                }
            }
            i = i + 1;
        }
        proof {
            assert(list@.take(list@.len() as int) =~= list@);
        }
        self.devices = list;
        actions
    }

    fn on_owns(&mut self, owns: bool, opening: bool, now: Instant) -> (r: Vec<Action>)
        ensures
            (final(self).model(), action_views(r@)) == on_owns(
                old(self).model(),
                owns,
                opening,
                now,
            ),
    {
        let nothing: Vec<Action> = Vec::new();
        proof {
            assert(action_views(nothing@) =~= Seq::empty());
        }
        if owns {
            self.owner = HandoffOwner::Local;
            return nothing;
        }
        self.owner = HandoffOwner::Other;
        if !self.enabled || opening || self.in_opening(now) {
            return nothing;
        }
        if self.released {
            self.note_request(now);
            return nothing;
        }
        let peer = self.active_other_source();
        self.yield_steps(now, false, HandoffEventKind::Yielded, peer)
    }

    fn on_routing(&mut self, sender: Address, requests_yield: bool, now: Instant) -> (r: Vec<
        Action,
    >)
        ensures
            (final(self).model(), action_views(r@)) == on_routing(
                old(self).model(),
                sender,
                requests_yield,
                now,
            ),
    {
        let nothing: Vec<Action> = Vec::new();
        proof {
            assert(action_views(nothing@) =~= Seq::empty());
        }
        if !requests_yield || self.is_local(sender) {
            return nothing;
        }
        self.owner = HandoffOwner::Other;
        if !self.enabled {
            return nothing;
        }
        if self.released {
            // Already gave it up. The peer asking again renews the hold, and a
            // local player still Playing is paused again.
            self.note_request(now);
            self.renew_hold(now);
            if self.playing == Some(true) {
                return self.repause(now);
            }
            return nothing;
        }
        self.yield_steps(now, true, HandoffEventKind::YieldRequested, Some(sender))
    }

    fn on_playback(
        &mut self,
        playing: bool,
        app: Option<String>,
        player: Option<String>,
        now: Instant,
    ) -> (r: Vec<Action>)
        ensures
            (final(self).model(), action_views(r@)) == on_playback(
                old(self).model(),
                playing,
                text_view(app),
                text_view(player),
                now,
            ),
    {
        let nothing: Vec<Action> = Vec::new();
        proof {
            assert(action_views(nothing@) =~= Seq::empty());
        }
        let previous = self.playing;
        self.playing = Some(playing);
        if app.is_some() {
            self.playing_app = app;
        }
        if player.is_some() {
            self.playing_player = player;
        }
        if playing || previous == Some(true) {
            self.last_play = Some(now);
        }
        if previous == Some(false) && playing {
            if self.in_hold_window(now) && self.may_repause() {
                return self.repause(now);
            }
            // Outside the windows, or the same player resumed again after its
            // one automatic re-pause: the user's play.
            self.play_edge = Some(now);
            self.stopped_at = None;
            // Hosts were told this one stopped, and audio still flows.
            if self.enabled && self.link_up && self.owns_audio() && self.transport_active == Some(
                true,
            ) && self.announced == Some(false) {
                return self.announce(true);
            }
            return nothing;
        }
        // Streaming NO waits: see `stop_tick`.
        if previous == Some(true) && !playing {
            self.play_edge = None;
            self.stopped_at = Some(now);
        }
        nothing
    }

    fn on_transport(&mut self, active: bool) -> (r: Vec<Action>)
        ensures
            (final(self).model(), action_views(r@)) == on_transport(old(self).model(), active),
    {
        let nothing: Vec<Action> = Vec::new();
        proof {
            assert(action_views(nothing@) =~= Seq::empty());
        }
        let previous = self.transport_active;
        self.transport_active = Some(active);
        if !active || previous == Some(true) || !self.link_up || !self.owns_audio() {
            return nothing;
        }
        self.stream_check = None;
        if self.reannounce {
            // One extra message: the take-over's YES preceded the audio.
            self.reannounce = false;
            return self.announce(true);
        }
        if self.enabled && self.playing == Some(true) && self.announced == Some(false) {
            return self.announce(true);
        }
        nothing
    }

    fn play_tick(&mut self, now: Instant) -> (r: Vec<Action>)
        requires
            now + STREAM_CHECK <= u128::MAX,
        ensures
            (final(self).model(), action_views(r@)) == play_tick(old(self).model(), now),
    {
        let nothing: Vec<Action> = Vec::new();
        proof {
            assert(action_views(nothing@) =~= Seq::empty());
        }
        let edge: Instant = match self.play_edge {
            Some(t) => t,
            None => {
                return nothing;
            },
        };
        if since(now, edge) < PLAY_DEBOUNCE {
            return nothing;
        }
        self.play_edge = None;
        if self.playing != Some(true) {
            return nothing;
        }
        // A play that began outside every hold window and lasted the debounce
        // is the user's: stop holding their player paused.
        self.held = false;
        let allowed = self.enabled && self.take_over_on_play && self.link_up
            && self.local.is_some() && !self.other_in_call() && self.owned_elsewhere();
        if allowed {
            return self.take_over_steps(now);
        }
        nothing
    }
}

/// Fold one event into the state and return what to do about it.
pub fn decide(s: &mut HandoffState, event: Event, now: Instant) -> (r: Vec<Action>)
    requires
        (event is Tick || event is TakeOver) ==> now + STREAM_CHECK <= u128::MAX,
    ensures
        (final(s).model(), action_views(r@)) == step(old(s).model(), event, now),
{
    let nothing: Vec<Action> = Vec::new();
    proof {
        reveal(step);
        reveal(on_tick);
        assert(action_views(nothing@) =~= Seq::empty());
    }
    match event {
        Event::LinkOpened => {
            s.reset_link();
            s.link_up = true;
            s.opened_at = Some(now);
            nothing
        },
        Event::OpeningSettled => {
            s.opening_settled = true;
            nothing
        },
        Event::LinkClosed => {
            s.reset_link();
            s.link_up = false;
            nothing
        },
        Event::AudioSource { address, state } => match state {
            AudioSourceState::Idle => s.on_source(address, AudioSourceStatus::Idle, now),
            AudioSourceState::Call => s.on_source(address, AudioSourceStatus::Call, now),
            AudioSourceState::Media => s.on_source(address, AudioSourceStatus::Media, now),
            AudioSourceState::Other(_) => nothing,
        },
        Event::ConnectedDevices(list) => s.on_devices(list, now),
        Event::OwnsConnection { owns, opening } => s.on_owns(owns, opening, now),
        Event::SmartRouting { sender, requests_yield } => s.on_routing(
            sender,
            requests_yield,
            now,
        ),
        Event::Playback { playing, app, player } => s.on_playback(playing, app, player, now),
        Event::AudioLinkChanged => {
            s.audio_changed = Some(now);
            nothing
        },
        Event::A2dpTransport { active } => s.on_transport(active),
        Event::Tick => {
            let mut actions: Vec<Action> = s.stream_tick(now);
            let ghost a1 = actions@;
            let mut more: Vec<Action> = s.stop_tick(now);
            let ghost a2 = more@;
            let mut last: Vec<Action> = s.play_tick(now);
            let ghost a3 = last@;
            actions.append(&mut more);
            actions.append(&mut last);
            proof {
                assert(action_views(actions@) =~= action_views(a1) + action_views(a2)
                    + action_views(a3));
            }
            actions
        },
        Event::TakeOver => s.take_over_steps(now),
        Event::Yield => s.yield_steps(now, true, HandoffEventKind::Yielded, None),
    }
}

// ---------------------------------------------------------------------------
// What the machine promises
// ---------------------------------------------------------------------------

/// The user's own command, rather than something observed.
pub open spec fn manual(event: Event) -> bool {
    event is TakeOver || event is Yield
}

/// An action by which audio changes hosts.
pub open spec fn switches(action: ActionModel) -> bool {
    match action {
        ActionModel::SendOwnership(_) => true,
        ActionModel::SendHijack { .. } => true,
        ActionModel::ClaimAudio => true,
        ActionModel::SetAudioRoute(_) => true,
        ActionModel::PauseLocalPlayers => true,
        ActionModel::Record { .. } => true,
        _ => false,
    }
}

/// A yield: pause, route away, perhaps the ownership write, and the record.
spec fn is_yield(acts: Seq<ActionModel>) -> bool {
    &&& 3 <= acts.len() <= 4
    &&& acts[0] == ActionModel::PauseLocalPlayers
    &&& acts[1] == ActionModel::SetAudioRoute(RouteMode::Yielded)
    &&& acts.len() == 4 ==> acts[2] == ActionModel::SendOwnership(false)
    &&& acts[acts.len() - 1] is Record
}

/// A take-over: route, ownership, word to `n` hosts, the claim, the record.
spec fn is_take_over(acts: Seq<ActionModel>, n: int) -> bool {
    &&& n >= 0
    &&& acts.len() == 4 + 2 * n
    &&& acts[0] == ActionModel::SetAudioRoute(RouteMode::Own)
    &&& acts[1] == ActionModel::SendOwnership(true)
    &&& forall|i: int|
        2 <= i < 2 + n ==> (#[trigger] acts[i] matches ActionModel::SendMediaInfo {
            streaming: true,
            ..
        })
    &&& forall|i: int| 2 + n <= i < 2 + 2 * n ==> #[trigger] acts[i] is SendHijack
    &&& acts[2 + 2 * n] == ActionModel::ClaimAudio
    &&& acts[3 + 2 * n] is Record
}

spec fn all_media(acts: Seq<ActionModel>, streaming: bool) -> bool {
    forall|i: int|
        0 <= i < acts.len() ==> (#[trigger] acts[i] matches ActionModel::SendMediaInfo {
            streaming: s,
            ..
        } && s == streaming)
}

spec fn all_introductions(acts: Seq<ActionModel>) -> bool {
    forall|i: int|
        0 <= i < acts.len() ==> (#[trigger] acts[i] is SendNewDeviceMediaInfo
            || acts[i] is SendNewTipi)
}

spec fn is_repause(m: HandoffModel, after: HandoffModel, acts: Seq<ActionModel>) -> bool {
    &&& acts.len() == 1
    &&& acts[0] == (ActionModel::RepausePlayer { player: after.playing_player })
    &&& after.repaused.len() > 0
    &&& after.repaused.last() == after.playing_player
}

proof fn lemma_introductions(targets: Seq<Address>)
    ensures
        all_introductions(introductions(targets)),
    decreases targets.len(),
{
    if targets.len() > 0 {
        lemma_introductions(targets.drop_last());
    }
}

proof fn lemma_source(m: HandoffModel, address: Address, status: AudioSourceStatus, now: Instant)
    ensures
        ({
            let (after, acts) = on_source(m, address, status, now);
            &&& after.enabled == m.enabled && after.stream_check is Some ==> m.stream_check is Some
            &&& after.reannounce ==> m.reannounce
            &&& {
                ||| acts.len() == 0
                ||| is_repause(m, after, acts) && m.held && !m.repaused.contains(
                    after.playing_player,
                )
                ||| is_yield(acts) && m.enabled && !m.released
            }
            &&& (after.released && !m.released) ==> m.enabled
            &&& after.held && !m.held ==> m.enabled
            &&& m.in_opening(now) ==> acts.len() == 0 && after.released == m.released && after.held
                == m.held
            &&& after.last_request == Some(now) || m.repaused.is_prefix_of(after.repaused)
        }),
{
    assert(m.repaused.is_prefix_of(m.repaused.push(m.playing_player)));
}

proof fn lemma_devices(m: HandoffModel, list: Seq<Address>, now: Instant)
    ensures
        ({
            let (after, acts) = on_devices(m, list, now);
            &&& after == (HandoffModel { devices: list, ..m })
            &&& all_introductions(acts)
            &&& (!m.enabled || m.in_opening(now)) ==> acts.len() == 0
        }),
{
    lemma_introductions(joined_hosts(m.local, m.devices, list));
}

proof fn lemma_owns(m: HandoffModel, owns: bool, opening: bool, now: Instant)
    ensures
        ({
            let (after, acts) = on_owns(m, owns, opening, now);
            &&& after.enabled == m.enabled && after.stream_check is Some ==> m.stream_check is Some
            &&& after.reannounce ==> m.reannounce
            &&& {
                ||| acts.len() == 0
                ||| is_yield(acts) && m.enabled && !m.released
            }
            &&& (after.released && !m.released) ==> m.enabled
            &&& after.held && !m.held ==> m.enabled
            &&& m.in_opening(now) ==> acts.len() == 0 && after.released == m.released && after.held
                == m.held
            &&& after.last_request == Some(now) || after.repaused == m.repaused
        }),
{
}

proof fn lemma_routing(m: HandoffModel, sender: Address, requests_yield: bool, now: Instant)
    ensures
        ({
            let (after, acts) = on_routing(m, sender, requests_yield, now);
            &&& after.enabled == m.enabled && after.stream_check is Some ==> m.stream_check is Some
            &&& after.reannounce ==> m.reannounce
            &&& {
                ||| acts.len() == 0
                ||| is_repause(m, after, acts) && m.enabled && m.released && after.last_request
                    == Some(now)
                ||| is_yield(acts) && m.enabled && !m.released
            }
            &&& (after.released && !m.released) ==> m.enabled
            &&& after.held && !m.held ==> m.enabled
            &&& after.last_request == Some(now) || after.repaused == m.repaused
        }),
{
}

proof fn lemma_playback(
    m: HandoffModel,
    playing: bool,
    app: Option<Seq<char>>,
    player: Option<Seq<char>>,
    now: Instant,
)
    ensures
        ({
            let (after, acts) = on_playback(m, playing, app, player, now);
            &&& after.enabled == m.enabled && after.stream_check == m.stream_check
            &&& after.reannounce == m.reannounce && after.released == m.released && after.held
                == m.held
            &&& {
                ||| acts.len() == 0
                ||| is_repause(m, after, acts) && m.held && !m.repaused.contains(
                    after.playing_player,
                )
                ||| all_media(acts, true) && m.enabled
            }
            &&& m.repaused.is_prefix_of(after.repaused)
        }),
{
    let after = on_playback(m, playing, app, player, now).0;
    assert(m.repaused.is_prefix_of(m.repaused.push(after.playing_player)));
}

proof fn lemma_transport(m: HandoffModel, active: bool)
    ensures
        ({
            let (after, acts) = on_transport(m, active);
            &&& after.enabled == m.enabled && after.stream_check is Some ==> m.stream_check is Some
            &&& after.reannounce ==> m.reannounce
            &&& after.released == m.released && after.held == m.held
            &&& all_media(acts, true)
            &&& (!m.enabled && !m.reannounce) ==> acts.len() == 0
            &&& after.repaused == m.repaused
        }),
{
}

proof fn lemma_take_over(m: HandoffModel)
    ensures
        is_take_over(m.take_over_actions(), m.others().len() as int),
{
    let n = m.others().len() as int;
    let acts = m.take_over_actions();
    assert forall|i: int| 2 <= i < 2 + n implies (
    #[trigger] acts[i] matches ActionModel::SendMediaInfo { streaming: true, .. }) by {
        assert(acts[i] == media_infos(m.others(), true, m.app())[i - 2]);
    }
    assert forall|i: int| 2 + n <= i < 2 + 2 * n implies #[trigger] acts[i] is SendHijack by {
        assert(acts[i] == hijacks(m.others())[i - 2 - n]);
    }
}

/// The tick's actions: at most one warning, then at most the stop message to
/// every other host, then at most a take-over.
spec fn tick_shape(m: HandoffModel, now: Instant, warn: int, stop: int) -> bool {
    let (after, acts) = on_tick(m, now);
    &&& 0 <= warn <= 1
    &&& stop >= 0
    &&& warn + stop <= acts.len()
    &&& warn == 1 ==> acts[0] == ActionModel::StreamNotStarted && m.stream_check is Some
    &&& forall|i: int|
        warn <= i < warn + stop ==> (#[trigger] acts[i] matches ActionModel::SendMediaInfo {
            streaming: false,
            ..
        })
    &&& stop > 0 ==> m.enabled && m.link_up && m.owns() && m.playing == Some(false)
        && !within(m.took_over_at, now, STREAM_GRACE) && m.stopped_at is Some && elapsed(
        now,
        m.stopped_at->0,
    ) >= PLAYBACK_STOPPED
    &&& acts.len() > warn + stop ==> {
        &&& is_take_over(acts.skip(warn + stop), (acts.len() - warn - stop - 4) / 2)
        &&& m.enabled && m.take_over_on_play && m.link_up && m.local is Some && m.playing == Some(
            true,
        )
        &&& m.play_edge is Some && elapsed(now, m.play_edge->0) >= PLAY_DEBOUNCE
        &&& m.owned_elsewhere() && !m.other_in_call()
        &&& after.took_over_at == Some(now)
    }
    &&& acts.len() == warn + stop ==> {
        &&& after.released == m.released
        &&& warn == 1 ==> after.stream_check is None
        &&& after.stream_check is Some ==> m.stream_check is Some
        &&& after.reannounce == m.reannounce
    }
    &&& after.enabled == m.enabled
    &&& after.held ==> m.held
    &&& after.released ==> m.released
    &&& after.repaused == m.repaused
}

/// The warning: at most one, and it ends the check.
spec fn warned(m: HandoffModel, m1: HandoffModel, a1: Seq<ActionModel>) -> bool {
    &&& m1 == (HandoffModel { stream_check: m1.stream_check, ..m })
    &&& m1.stream_check is Some ==> m.stream_check is Some
    &&& a1.len() <= 1
    &&& a1.len() == 1 ==> a1[0] == ActionModel::StreamNotStarted && m.stream_check is Some
        && m1.stream_check is None
}

/// The stop message.
spec fn stopped(m: HandoffModel, m2: HandoffModel, a2: Seq<ActionModel>, now: Instant) -> bool {
    &&& m2 == (HandoffModel { stopped_at: m2.stopped_at, announced: m2.announced, ..m })
    &&& all_media(a2, false)
    &&& a2.len() > 0 ==> m.enabled && m.link_up && m.owns() && m.playing == Some(false)
        && !within(m.took_over_at, now, STREAM_GRACE) && m.stopped_at is Some && elapsed(
        now,
        m.stopped_at->0,
    ) >= PLAYBACK_STOPPED
}

/// The debounced take-over.
spec fn played(m: HandoffModel, m3: HandoffModel, a3: Seq<ActionModel>, now: Instant) -> bool {
    &&& a3.len() == 0 ==> m3 == (HandoffModel { play_edge: m3.play_edge, held: m3.held, ..m })
    &&& m3.held ==> m.held
    &&& m3.enabled == m.enabled
    &&& m3.released ==> m.released
    &&& m3.repaused == m.repaused
    &&& a3.len() > 0 ==> {
        &&& is_take_over(a3, (a3.len() - 4) / 2)
        &&& m.enabled && m.take_over_on_play && m.link_up && m.local is Some && m.playing == Some(
            true,
        )
        &&& m.play_edge is Some && elapsed(now, m.play_edge->0) >= PLAY_DEBOUNCE
        &&& m.owned_elsewhere() && !m.other_in_call()
        &&& m3.took_over_at == Some(now)
    }
}

proof fn lemma_warned(m: HandoffModel, now: Instant)
    ensures
        warned(m, stream_tick(m, now).0, stream_tick(m, now).1),
{
}

proof fn lemma_stopped(m: HandoffModel, now: Instant)
    ensures
        stopped(m, stop_tick(m, now).0, stop_tick(m, now).1, now),
{
}

proof fn lemma_played(m: HandoffModel, now: Instant)
    ensures
        played(m, play_tick(m, now).0, play_tick(m, now).1, now),
{
    let m4 = HandoffModel { held: false, play_edge: None, ..m };
    lemma_take_over(m4);
}

proof fn lemma_tick_parts(
    m: HandoffModel,
    m1: HandoffModel,
    a1: Seq<ActionModel>,
    m2: HandoffModel,
    a2: Seq<ActionModel>,
    m3: HandoffModel,
    a3: Seq<ActionModel>,
    now: Instant,
)
    requires
        warned(m, m1, a1),
        stopped(m1, m2, a2, now),
        played(m2, m3, a3, now),
        on_tick(m, now) == (m3, a1 + a2 + a3),
    ensures
        tick_shape(m, now, a1.len() as int, a2.len() as int),
{
    let acts = a1 + a2 + a3;
    let warn = a1.len() as int;
    let stop = a2.len() as int;
    assert forall|i: int| warn <= i < warn + stop implies (
    #[trigger] acts[i] matches ActionModel::SendMediaInfo { streaming: false, .. }) by {
        assert(acts[i] == a2[i - warn]);
    }
    assert(acts.skip(warn + stop) =~= a3);
    if warn == 1 {
        assert(acts[0] == a1[0]);
    }
}

proof fn lemma_tick(m: HandoffModel, now: Instant) -> (parts: (int, int))
    ensures
        tick_shape(m, now, parts.0, parts.1),
        m.stream_check is None ==> parts.0 == 0,
        on_tick(m, now).1.len() > parts.0 + parts.1 ==> m.enabled,
{
    reveal(on_tick);
    let (m1, a1) = stream_tick(m, now);
    let (m2, a2) = stop_tick(m1, now);
    let (m3, a3) = play_tick(m2, now);
    lemma_warned(m, now);
    lemma_stopped(m1, now);
    lemma_played(m2, now);
    lemma_tick_parts(m, m1, a1, m2, a2, m3, a3, now);
    (a1.len() as int, a2.len() as int)
}

/// While switching is off, nothing observed changes who has the audio.
pub proof fn disabled_never_switches(m: HandoffModel, event: Event, now: Instant)
    requires
        !m.enabled,
        !manual(event),
    ensures
        forall|i: int|
            0 <= i < step(m, event, now).1.len() ==> !switches(#[trigger] step(m, event, now).1[i]),
        !step(m, event, now).0.enabled,
        step(m, event, now).0.released ==> m.released,
{
    lemma_shapes(m, event, now);
    if event is Tick {
        let (warn, stop) = lemma_tick(m, now);
        lemma_step_tick(m, now);
        lemma_tick_at(m, now, warn, stop);
    }
}

/// What every event can lead to.
spec fn shaped(m: HandoffModel, event: Event, now: Instant) -> bool {
    let (after, acts) = step(m, event, now);
    match event {
        Event::Tick => exists|warn: int, stop: int| tick_shape(m, now, warn, stop),
        Event::TakeOver => is_take_over(acts, m.others().len() as int) && after.took_over_at
            == Some(now) && after.repaused == m.repaused,
        Event::Yield => is_yield(acts) && after.last_request == Some(now) && after.stream_check
            is None,
        _ => {
            &&& after.enabled == m.enabled
            &&& after.stream_check is Some ==> m.stream_check is Some
            &&& after.reannounce ==> m.reannounce
            &&& (after.released && !m.released) ==> m.enabled
            &&& after.held && !m.held ==> m.enabled
            &&& {
                ||| acts.len() == 0
                ||| is_repause(m, after, acts) && ((m.held && !m.repaused.contains(
                    after.playing_player,
                )) || (event is SmartRouting && m.enabled && m.released && after.last_request
                    == Some(now)))
                ||| is_yield(acts) && m.enabled && !m.released
                ||| all_media(acts, true) && (m.enabled || m.reannounce)
                ||| all_introductions(acts) && m.enabled
            }
            &&& event is LinkOpened || event is LinkClosed || after.last_request == Some(now)
                || m.repaused.is_prefix_of(after.repaused)
        },
    }
}

proof fn lemma_shapes(m: HandoffModel, event: Event, now: Instant)
    ensures
        shaped(m, event, now),
{
    reveal(step);
    assert(m.repaused.is_prefix_of(m.repaused));
    match event {
        Event::Tick => {
            let (warn, stop) = lemma_tick(m, now);
        lemma_step_tick(m, now);
            assert(tick_shape(m, now, warn, stop));
        },
        Event::TakeOver => {
            lemma_take_over(m);
        },
        Event::AudioSource { address, state } => {
            lemma_source(m, address, AudioSourceStatus::Idle, now);
            lemma_source(m, address, AudioSourceStatus::Call, now);
            lemma_source(m, address, AudioSourceStatus::Media, now);
        },
        Event::ConnectedDevices(list) => {
            lemma_devices(m, list@, now);
        },
        Event::OwnsConnection { owns, opening } => {
            lemma_owns(m, owns, opening, now);
        },
        Event::SmartRouting { sender, requests_yield } => {
            lemma_routing(m, sender, requests_yield, now);
        },
        Event::Playback { playing, app, player } => {
            lemma_playback(m, playing, text_view(app), text_view(player), now);
        },
        Event::A2dpTransport { active } => {
            lemma_transport(m, active);
        },
        _ => {},
    }
}

/// A machine with switching off that holds nothing from an earlier switch.
pub open spec fn inert(m: HandoffModel) -> bool {
    !m.enabled && !m.held && !m.reannounce && m.stream_check is None
}

/// A machine that was never switched on does nothing at all, and stays that
/// way, whatever it observes.
pub proof fn never_enabled_never_acts(m: HandoffModel, event: Event, now: Instant)
    requires
        inert(m),
        !manual(event),
    ensures
        step(m, event, now).1 == Seq::<ActionModel>::empty(),
        inert(step(m, event, now).0),
        inert(HandoffModel::fresh(false, m.take_over_on_play)),
{
    lemma_shapes(m, event, now);
    if event is Tick {
        let parts = lemma_tick(m, now);
        lemma_step_tick(m, now);
    }
    assert(step(m, event, now).1 =~= Seq::empty());
}

/// Two states know the same reports.
spec fn same_reports(a: HandoffModel, b: HandoffModel) -> bool {
    a.last_event == b.last_event && a.devices == b.devices && a.audio_source == b.audio_source
}

proof fn lemma_tick_keeps_reports(m: HandoffModel, now: Instant)
    ensures
        same_reports(on_tick(m, now).0, m),
{
    let m1 = stream_tick(m, now).0;
    let m2 = stop_tick(m1, now).0;
    assert(same_reports(m1, m));
    assert(same_reports(m2, m1));
    assert(same_reports(play_tick(m2, now).0, m2));
    reveal(on_tick);
}

proof fn lemma_source_is_kept(
    m: HandoffModel,
    address: Address,
    status: AudioSourceStatus,
    now: Instant,
)
    ensures
        same_reports(
            on_source(m, address, status, now).0,
            HandoffModel { audio_source: Some((address, status)), ..m },
        ),
{
}

/// What the AirPods report is kept, on or off: the latest audio source and the
/// latest list of hosts, in its order, until the link opens or closes again.
/// Only the session records what was published.
pub proof fn reports_are_kept(m: HandoffModel, event: Event, now: Instant)
    ensures
        ({
            let after = step(m, event, now).0;
            &&& after.last_event == m.last_event
            &&& after.devices == (match event {
                Event::ConnectedDevices(list) => list@,
                Event::LinkOpened | Event::LinkClosed => Seq::empty(),
                _ => m.devices,
            })
            &&& after.audio_source == (match event {
                Event::AudioSource { address, state } => match state {
                    AudioSourceState::Idle => Some((address, AudioSourceStatus::Idle)),
                    AudioSourceState::Call => Some((address, AudioSourceStatus::Call)),
                    AudioSourceState::Media => Some((address, AudioSourceStatus::Media)),
                    AudioSourceState::Other(_) => m.audio_source,
                },
                Event::LinkOpened | Event::LinkClosed => None,
                _ => m.audio_source,
            })
        }),
{
    match event {
        Event::AudioSource { address, state } => {
            match state {
                AudioSourceState::Idle => {
                    lemma_source_is_kept(m, address, AudioSourceStatus::Idle, now);
                },
                AudioSourceState::Call => {
                    lemma_source_is_kept(m, address, AudioSourceStatus::Call, now);
                },
                AudioSourceState::Media => {
                    lemma_source_is_kept(m, address, AudioSourceStatus::Media, now);
                },
                AudioSourceState::Other(_) => {},
            }
            reveal(step);
        },
        Event::SmartRouting { sender, requests_yield } => {
            assert(same_reports(on_routing(m, sender, requests_yield, now).0, m));
            reveal(step);
        },
        Event::Playback { playing, app, player } => {
            assert(same_reports(
                on_playback(m, playing, text_view(app), text_view(player), now).0,
                m,
            ));
            reveal(step);
        },
        Event::Tick => {
            lemma_tick_keeps_reports(m, now);
            reveal(step);
        },
        _ => {
            reveal(step);
        },
    }
}

/// The state after a run of events, and all that was done on the way.
pub open spec fn run(m: HandoffModel, events: Seq<(Event, Instant)>) -> Step
    decreases events.len(),
{
    if events.len() == 0 {
        quiet(m)
    } else {
        let (before, done) = run(m, events.drop_last());
        let (after, actions) = step(before, events.last().0, events.last().1);
        (after, done + actions)
    }
}

/// The latest audio source reported since the link opened or closed.
pub open spec fn latest_source(events: Seq<(Event, Instant)>) -> Option<
    (Address, AudioSourceStatus),
>
    decreases events.len(),
{
    if events.len() == 0 {
        None
    } else {
        match events.last().0 {
            Event::AudioSource { address, state } => match state {
                AudioSourceState::Idle => Some((address, AudioSourceStatus::Idle)),
                AudioSourceState::Call => Some((address, AudioSourceStatus::Call)),
                AudioSourceState::Media => Some((address, AudioSourceStatus::Media)),
                AudioSourceState::Other(_) => latest_source(events.drop_last()),
            },
            Event::LinkOpened | Event::LinkClosed => None,
            _ => latest_source(events.drop_last()),
        }
    }
}

/// The latest list of hosts reported since the link opened or closed.
pub open spec fn latest_devices(events: Seq<(Event, Instant)>) -> Seq<Address>
    decreases events.len(),
{
    if events.len() == 0 {
        Seq::empty()
    } else {
        match events.last().0 {
            Event::ConnectedDevices(list) => list@,
            Event::LinkOpened | Event::LinkClosed => Seq::empty(),
            _ => latest_devices(events.drop_last()),
        }
    }
}

/// A machine that was never switched on only listens: over any run of events
/// it does nothing, records nothing, and holds the latest reports.
pub proof fn a_run_while_off_only_listens(m: HandoffModel, events: Seq<(Event, Instant)>)
    requires
        inert(m),
        m.last_event is None,
        m.audio_source is None,
        m.devices.len() == 0,
        forall|i: int| 0 <= i < events.len() ==> !manual(#[trigger] events[i].0),
    ensures
        run(m, events).1 == Seq::<ActionModel>::empty(),
        inert(run(m, events).0),
        run(m, events).0.last_event is None,
        run(m, events).0.audio_source == latest_source(events),
        run(m, events).0.devices == latest_devices(events),
    decreases events.len(),
{
    if events.len() > 0 {
        let (event, now) = events.last();
        let before = run(m, events.drop_last()).0;
        assert(!manual(events[events.len() - 1].0));
        assert forall|i: int| 0 <= i < events.drop_last().len() implies !manual(
            #[trigger] events.drop_last()[i].0,
        ) by {
            assert(!manual(events[i].0));
        }
        a_run_while_off_only_listens(m, events.drop_last());
        never_enabled_never_acts(before, event, now);
        reports_are_kept(before, event, now);
    }
}

/// Ownership is given up only right behind the pause and the route switch, and
/// claimed only right behind the route switch.
pub proof fn switches_are_ordered(m: HandoffModel, event: Event, now: Instant)
    ensures
        ({
            let actions = step(m, event, now).1;
            &&& forall|i: int|
                0 <= i < actions.len() && #[trigger] actions[i] == ActionModel::SendOwnership(false)
                    ==> i >= 2 && actions[i - 1] == ActionModel::SetAudioRoute(RouteMode::Yielded)
                    && actions[i - 2] == ActionModel::PauseLocalPlayers
            &&& forall|i: int|
                0 <= i < actions.len() && #[trigger] actions[i] == ActionModel::SetAudioRoute(
                    RouteMode::Yielded,
                ) ==> i >= 1 && actions[i - 1] == ActionModel::PauseLocalPlayers
            &&& forall|i: int|
                0 <= i < actions.len() && #[trigger] actions[i] == ActionModel::SendOwnership(true)
                    ==> i >= 1 && actions[i - 1] == ActionModel::SetAudioRoute(RouteMode::Own)
        }),
{
    lemma_shapes(m, event, now);
    let actions = step(m, event, now).1;
    if event is Tick {
        let (warn, stop) = lemma_tick(m, now);
        lemma_step_tick(m, now);
        lemma_tick_at(m, now, warn, stop);
    }
}

/// A tick is the tick's three checks.
proof fn lemma_step_tick(m: HandoffModel, now: Instant)
    ensures
        step(m, Event::Tick, now) == on_tick(m, now),
{
    reveal(step);
}

/// Where the tick's take-over starts, its actions follow.
proof fn lemma_tick_at(m: HandoffModel, now: Instant, warn: int, stop: int)
    requires
        tick_shape(m, now, warn, stop),
    ensures
        ({
            let acts = on_tick(m, now).1;
            let from = warn + stop;
            &&& forall|i: int| 0 <= i < from ==> !switches(#[trigger] acts[i])
            &&& acts.len() > from ==> acts.len() > from + 1 && acts[from]
                == ActionModel::SetAudioRoute(RouteMode::Own) && acts[from + 1]
                == ActionModel::SendOwnership(true)
            &&& forall|i: int|
                from + 2 <= i < acts.len() ==> !(#[trigger] acts[i] is SendOwnership)
                    && !(acts[i] is SetAudioRoute) && !(acts[i] is PauseLocalPlayers)
                    && !(acts[i] is RepausePlayer) && !(acts[i] is StreamNotStarted)
        }),
{
    let acts = on_tick(m, now).1;
    let from = warn + stop;
    let rest = acts.skip(from);
    if acts.len() > from {
        assert(rest[0] == acts[from]);
        assert(rest[1] == acts[from + 1]);
        assert forall|i: int| from + 2 <= i < acts.len() implies !(
        #[trigger] acts[i] is SendOwnership) && !(acts[i] is SetAudioRoute) && !(
        acts[i] is PauseLocalPlayers) && !(acts[i] is RepausePlayer) && !(
        acts[i] is StreamNotStarted) by {
            assert(rest[i - from] == acts[i]);
        }
    }
}

/// The tick's warning is where it starts, or nowhere.
proof fn lemma_tick_warning(m: HandoffModel, now: Instant, warn: int, stop: int)
    requires
        tick_shape(m, now, warn, stop),
    ensures
        on_tick(m, now).1.contains(ActionModel::StreamNotStarted) ==> warn == 1,
        on_tick(m, now).0.stream_check is Some && m.stream_check is None ==> on_tick(
            m,
            now,
        ).0.took_over_at == Some(now),
        warn == 1 ==> on_tick(m, now).0.stream_check is None || on_tick(m, now).0.took_over_at
            == Some(now),
{
    let acts = on_tick(m, now).1;
    lemma_tick_at(m, now, warn, stop);
    if acts.contains(ActionModel::StreamNotStarted) {
        let at = choose|i: int| 0 <= i < acts.len() && acts[i] == ActionModel::StreamNotStarted;
        assert(acts[at] is StreamNotStarted);
    }
}

/// The audio is taken without a command only where switching and taking over
/// on play are on, the link is up, the local adapter is known, a local play
/// has lasted the debounce, and another host has the audio and is not in a
/// call.
pub proof fn take_over_is_the_users_wish(m: HandoffModel, event: Event, now: Instant)
    requires
        !manual(event),
        step(m, event, now).1.contains(ActionModel::SendOwnership(true)),
    ensures
        event is Tick,
        m.enabled,
        m.take_over_on_play,
        m.link_up,
        m.local is Some,
        m.playing == Some(true),
        m.play_edge matches Some(edge) && elapsed(now, edge) >= PLAY_DEBOUNCE,
        m.owned_elsewhere(),
        !m.other_in_call(),
{
    lemma_shapes(m, event, now);
    let actions = step(m, event, now).1;
    let at = choose|i: int|
        0 <= i < actions.len() && actions[i] == ActionModel::SendOwnership(true);
    assert(switches(actions[at]));
    if event is Tick {
        let (warn, stop) = lemma_tick(m, now);
        lemma_step_tick(m, now);
        lemma_tick_at(m, now, warn, stop);
    }
}

/// The opening dump is state: a report of a source, of ownership or of hosts
/// inside the opening window leads to no action, and gives nothing up.
pub proof fn opening_reports_never_act(m: HandoffModel, event: Event, now: Instant)
    requires
        m.in_opening(now),
        event is AudioSource || event is OwnsConnection || event is ConnectedDevices,
    ensures
        step(m, event, now).1 == Seq::<ActionModel>::empty(),
        step(m, event, now).0.released == m.released,
        step(m, event, now).0.held == m.held,
{
    reveal(step);
    match event {
        Event::AudioSource { address, state } => {
            lemma_source(m, address, AudioSourceStatus::Idle, now);
            lemma_source(m, address, AudioSourceStatus::Call, now);
            lemma_source(m, address, AudioSourceStatus::Media, now);
        },
        Event::ConnectedDevices(list) => {
            lemma_devices(m, list@, now);
        },
        Event::OwnsConnection { owns, opening } => {
            lemma_owns(m, owns, opening, now);
        },
        _ => {},
    }
    assert(step(m, event, now).1 =~= Seq::empty());
}

/// This host yields once: having given the audio up, nothing observed makes
/// it give the audio up again.
pub proof fn yields_once(m: HandoffModel, event: Event, now: Instant)
    requires
        m.released,
        !manual(event),
    ensures
        !step(m, event, now).1.contains(ActionModel::PauseLocalPlayers),
        !step(m, event, now).1.contains(ActionModel::SendOwnership(false)),
{
    lemma_shapes(m, event, now);
    let actions = step(m, event, now).1;
    if event is Tick {
        let (warn, stop) = lemma_tick(m, now);
        lemma_step_tick(m, now);
        lemma_tick_at(m, now, warn, stop);
    }
}

/// A player is paused again at most once per request: a re-pause names the
/// playing player, marks it, and happens only to a player not yet marked or
/// with a new request that clears the marks. Marks go only with a request or
/// the link.
pub proof fn one_repause_per_request(m: HandoffModel, event: Event, now: Instant)
    ensures
        forall|p: Option<Seq<char>>|
            #[trigger] step(m, event, now).1.contains(ActionModel::RepausePlayer { player: p }) ==> {
                &&& p == step(m, event, now).0.playing_player
                &&& step(m, event, now).0.repaused.contains(p)
                &&& !m.repaused.contains(p) || (event is SmartRouting && step(
                    m,
                    event,
                    now,
                ).0.last_request == Some(now))
            },
        event is LinkOpened || event is LinkClosed || step(m, event, now).0.last_request == Some(
            now,
        ) || m.repaused.is_prefix_of(step(m, event, now).0.repaused),
{
    lemma_shapes(m, event, now);
    let actions = step(m, event, now).1;
    let after = step(m, event, now).0;
    assert(m.repaused.is_prefix_of(m.repaused));
    if event is Tick {
        let (warn, stop) = lemma_tick(m, now);
        lemma_step_tick(m, now);
        lemma_tick_at(m, now, warn, stop);
    }
    assert forall|p: Option<Seq<char>>|
        #[trigger] actions.contains(ActionModel::RepausePlayer { player: p }) implies {
        &&& p == after.playing_player
        &&& after.repaused.contains(p)
        &&& !m.repaused.contains(p) || (event is SmartRouting && after.last_request == Some(now))
    } by {
        let at = choose|i: int|
            0 <= i < actions.len() && actions[i] == (ActionModel::RepausePlayer { player: p });
        assert(actions[at] is RepausePlayer);
        assert(after.repaused.last() == after.repaused[after.repaused.len() - 1]);
    }
}

/// The first playback reading since start or link open is never an edge.
pub proof fn first_reading_is_no_edge(
    m: HandoffModel,
    playing: bool,
    app: Option<Seq<char>>,
    player: Option<Seq<char>>,
    now: Instant,
)
    requires
        m.playing is None,
    ensures
        on_playback(m, playing, app, player, now).1 == Seq::<ActionModel>::empty(),
        on_playback(m, playing, app, player, now).0.play_edge == m.play_edge,
        on_playback(m, playing, app, player, now).0.stopped_at == m.stopped_at,
{
}

/// Other hosts hear that this one stopped only from a tick, while it owns the
/// audio and switching is on, once playback has stayed stopped and the
/// take-over's grace is over.
pub proof fn stop_is_announced_late(
    m: HandoffModel,
    event: Event,
    now: Instant,
    target: Address,
    app: Seq<char>,
)
    requires
        step(m, event, now).1.contains(
            (ActionModel::SendMediaInfo { target, streaming: false, app }),
        ),
    ensures
        event is Tick,
        m.enabled,
        m.link_up,
        m.owns(),
        m.playing == Some(false),
        m.stopped_at matches Some(t) && elapsed(now, t) >= PLAYBACK_STOPPED,
        !within(m.took_over_at, now, STREAM_GRACE),
{
    lemma_shapes(m, event, now);
    let actions = step(m, event, now).1;
    let said = ActionModel::SendMediaInfo { target, streaming: false, app };
    let at = choose|i: int| 0 <= i < actions.len() && actions[i] == said;
    assert(actions[at] == said);
    if event is Tick {
        let (warn, stop) = lemma_tick(m, now);
        lemma_step_tick(m, now);
        if at >= warn + stop {
            let rest = actions.skip(warn + stop);
            assert(rest[at - warn - stop] == said);
        }
    }
}

/// A silent stream is reported at most once per take-over: the report ends the
/// check, and only a take-over starts another.
pub proof fn silent_stream_is_said_once(m: HandoffModel, event: Event, now: Instant)
    ensures
        step(m, event, now).1.contains(ActionModel::StreamNotStarted) ==> m.stream_check is Some && (
        step(m, event, now).0.stream_check is None || step(m, event, now).0.took_over_at == Some(
            now,
        )),
        m.stream_check is None && step(m, event, now).0.stream_check is Some ==> step(
            m,
            event,
            now,
        ).0.took_over_at == Some(now),
{
    let actions = step(m, event, now).1;
    if event is Tick {
        let (warn, stop) = lemma_tick(m, now);
        lemma_step_tick(m, now);
        lemma_tick_at(m, now, warn, stop);
        lemma_tick_warning(m, now, warn, stop);
    } else {
        lemma_shapes(m, event, now);
        if actions.contains(ActionModel::StreamNotStarted) {
            let at = choose|i: int|
                0 <= i < actions.len() && actions[i] == ActionModel::StreamNotStarted;
            assert(actions[at] is StreamNotStarted);
        }
    }
}

/// After a yield this host does not own the audio; after a take-over it does.
pub proof fn commands_settle_ownership(m: HandoffModel, now: Instant)
    ensures
        !step(m, Event::Yield, now).0.owns(),
        step(m, Event::TakeOver, now).0.owns(),
{
    reveal(step);
}

} // verus!
