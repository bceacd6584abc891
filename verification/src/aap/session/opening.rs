//! Building a supervisor, and opening the AAP link.
use super::{
    pick_variant, variant_for, Awaited, DialKind, Effect, EffectModel, Moment, SessionConfig,
    SessionModel, Supervisor, FEATURES_ACK_WAIT, HANDSHAKE_ACK_WAIT, READBACK_WINDOW,
};
use crate::aap::codec::{self, FeaturesVariant, DEFAULT_BT_NAME};
use crate::address::Address;
use crate::autoconnect::AutoConnectState;
use crate::clock::{Duration, Instant};
use crate::config::{AutoconnectConfig, EarConfig, HandoffConfig};
use crate::ear_media::{EarMediaModel, EarMediaState};
use crate::handoff::{self, HandoffModel, HandoffState};
use crate::store::Update;
use vstd::prelude::*;
use vstd::string::*;

verus! {

/// Permissions for Apple multi-host switching.
#[derive(Debug, Clone)]
pub struct HandoffOptions {
    /// `[handoff]` from config.toml.
    pub config: HandoffConfig,
    /// Allow BlueZ `Device1.ConnectProfile` on take-over, and local card
    /// profile changes.
    pub control_audio_profiles: bool,
}

impl Default for HandoffOptions {
    fn default() -> (r: Self)
        ensures
            call_ensures(HandoffConfig::default, (), r.config),
            !r.control_audio_profiles,
    {
        HandoffOptions { config: HandoffConfig::default(), control_audio_profiles: false }
    }
}

/// Permissions for BLE proximity auto-connect.
#[derive(Debug, Clone, Copy)]
pub struct AutoConnectOptions {
    /// `[autoconnect]` from config.toml.
    pub config: AutoconnectConfig,
    /// Allow BlueZ `Device1.Connect` when an episode comes due.
    pub control_link: bool,
}

/// One permitted dial.
#[derive(Debug, Clone, Copy, PartialEq, Eq)]
pub struct Dial {
    /// Why it was armed.
    pub kind: DialKind,
    /// The link it belongs to.
    pub generation: u64,
    /// Local adapter.
    pub adapter: Address,
    /// The AirPods.
    pub device: Address,
}

/// One move of the opening sequence.
#[verifier::ext_equal]
pub enum Move {
    /// Send a packet.
    Send(Seq<u8>),
    /// Wait for an acknowledgement.
    Await(Awaited),
}

/// The full subscribe.
pub open spec fn subscribe() -> Seq<u8> {
    seq![4u8, 0, 4, 0, 0x0f, 0, 0xff, 0xff, 0xff, 0xff, 0xff]
}

/// The opening sequence. The accessory ignores everything sent before it has
/// acknowledged the handshake. The alternate variant then subscribes before
/// negotiating features, with a narrower first subscribe; the default order
/// negotiates first and subscribes last. Nothing else differs.
pub open spec fn script(variant: FeaturesVariant) -> Seq<Move> {
    if variant == FeaturesVariant::Alt {
        seq![
            Move::Send(codec::handshake_bytes()),
            Move::Await(Awaited::Handshake),
            Move::Send(seq![4u8, 0, 4, 0, 0x0f, 0, 0xff, 0xff, 0xef, 0xff]),
            Move::Send(subscribe()),
            Move::Send(codec::features_bytes(variant)),
            Move::Await(Awaited::Features),
        ]
    } else {
        seq![
            Move::Send(codec::handshake_bytes()),
            Move::Await(Awaited::Handshake),
            Move::Send(codec::features_bytes(variant)),
            Move::Await(Awaited::Features),
            Move::Send(subscribe()),
        ]
    }
}

/// How the last move of the opening sequence ended.
#[derive(Debug, Clone, Copy, PartialEq, Eq, Structural)]
pub enum Report {
    /// There was none yet.
    Begun,
    /// The packet went out, or the acknowledgement came.
    Done,
    /// No acknowledgement came in time; nothing was wrong with the socket.
    TimedOut,
    /// The socket failed or the peer hung up.
    Failed,
}

/// What to do next on the way to an open link.
#[derive(Debug, Clone, PartialEq, Eq)]
pub enum OpeningStep {
    /// Send this packet.
    Send(Vec<u8>),
    /// Wait for this acknowledgement, at most this long.
    Await {
        /// The acknowledgement.
        want: Awaited,
        /// The wait.
        budget: Duration,
    },
    /// The link may be used.
    Finish,
    /// Stop: the link this was for is gone.
    Stop,
}

/// A step with its packet read as a sequence.
#[verifier::ext_equal]
pub enum OpeningModel {
    /// See [`OpeningStep::Send`].
    Send(Seq<u8>),
    /// See [`OpeningStep::Await`].
    Await {
        /// The acknowledgement.
        want: Awaited,
        /// The wait.
        budget: Duration,
    },
    /// See [`OpeningStep::Finish`].
    Finish,
    /// See [`OpeningStep::Stop`].
    Stop,
}

impl View for OpeningStep {
    type V = OpeningModel;

    open spec fn view(&self) -> OpeningModel {
        match *self {
            OpeningStep::Send(packet) => OpeningModel::Send(packet@),
            OpeningStep::Await { want, budget } => OpeningModel::Await { want, budget },
            OpeningStep::Finish => OpeningModel::Finish,
            OpeningStep::Stop => OpeningModel::Stop,
        }
    }
}

/// How long an acknowledgement is waited for.
pub open spec fn ack_budget(want: Awaited) -> Duration {
    match want {
        Awaited::Handshake => HANDSHAKE_ACK_WAIT,
        Awaited::Features => FEATURES_ACK_WAIT,
    }
}

/// A way through the opening sequence.
#[derive(Debug, Clone, Copy, PartialEq, Eq)]
pub struct Opening {
    /// The set-features variant of this dial.
    pub variant: FeaturesVariant,
    /// The move that is under way.
    pub at: usize,
}

impl Opening {
    /// The move under way is one of the sequence.
    pub open spec fn wf(self) -> bool {
        self.at < script(self.variant).len()
    }

    /// The move that follows a report.
    pub open spec fn following(self, report: Report) -> int {
        if report == Report::Begun {
            0
        } else {
            self.at + 1
        }
    }

    /// The sequence failed: the socket did, or the handshake went unanswered.
    /// The acknowledgement of the features is advisory: some firmware never
    /// sends one.
    pub open spec fn broken(self, report: Report) -> bool {
        report == Report::Failed || (report == Report::TimedOut && script(
            self.variant,
        )[self.at as int] == Move::Await(Awaited::Handshake))
    }

    /// What follows a report. `alive` says that the link the dial was made for
    /// is still the one selected.
    pub open spec fn step(self, report: Report, alive: bool) -> OpeningModel {
        let next = self.following(report);
        if !alive {
            OpeningModel::Stop
        } else if next >= script(self.variant).len() {
            OpeningModel::Finish
        } else {
            match script(self.variant)[next] {
                Move::Send(packet) => OpeningModel::Send(packet),
                Move::Await(want) => OpeningModel::Await { want, budget: ack_budget(want) },
            }
        }
    }

    /// Before the first move.
    pub fn new(variant: FeaturesVariant) -> (r: Self)
        ensures
            r.wf(),
            r.variant == variant,
            r.at == 0,
    {
        Opening { variant, at: 0 }
    }

    fn perform(&self, at: usize) -> (r: OpeningStep)
        requires
            at < script(self.variant).len(),
        ensures
            r@ == (match script(self.variant)[at as int] {
                Move::Send(packet) => OpeningModel::Send(packet),
                Move::Await(want) => OpeningModel::Await { want, budget: ack_budget(want) },
            }),
    {
        let alt = self.variant == FeaturesVariant::Alt;
        if at == 0 {
            return OpeningStep::Send(codec::encode_handshake());
        }
        if at == 1 {
            return OpeningStep::Await { want: Awaited::Handshake, budget: HANDSHAKE_ACK_WAIT };
        }
        if at == 2 && alt {
            return OpeningStep::Send(codec::encode_request_notifications_alt());
        }
        if at == 3 && alt || at == 4 && !alt {
            return OpeningStep::Send(codec::encode_request_notifications());
        }
        if at == 4 && alt || at == 2 && !alt {
            return OpeningStep::Send(codec::encode_set_features(self.variant));
        }
        OpeningStep::Await { want: Awaited::Features, budget: FEATURES_ACK_WAIT }
    }

    /// The sequence failed, and unattended recovery is to be suppressed.
    pub fn is_broken(&self, report: Report) -> (r: bool)
        requires
            self.wf(),
        ensures
            r == self.broken(report),
    {
        report == Report::Failed || report == Report::TimedOut && self.at == 1
    }

    /// What to do after the last move ended as reported. `alive` says that the
    /// link the dial was made for is still the one selected.
    pub fn next(&mut self, report: Report, alive: bool) -> (r: OpeningStep)
        requires
            old(self).wf(),
            !old(self).broken(report),
        ensures
            r@ == old(self).step(report, alive),
            final(self).wf(),
            final(self).variant == old(self).variant,
            r is Send || r is Await ==> final(self).at == old(self).following(report),
            !(r is Send || r is Await) ==> final(self).at == old(self).at,
    {
        if !alive {
            return OpeningStep::Stop;
        }
        let next: usize = if report == Report::Begun {
            0
        } else {
            self.at + 1
        };
        let total: usize = if self.variant == FeaturesVariant::Alt {
            6
        } else {
            5
        };
        if next >= total {
            return OpeningStep::Finish;
        }
        self.at = next;
        self.perform(next)
    }
}

/// Nothing but the handshake goes out before it was answered, and a link is
/// never used over an unanswered handshake.
pub proof fn the_handshake_comes_first(o: Opening, report: Report, alive: bool)
    requires
        o.wf(),
        o.at <= 1,
        !o.broken(report),
    ensures
        o.step(report, alive) matches OpeningModel::Send(packet) ==> packet
            == codec::handshake_bytes() || o.at == 1 && report == Report::Done,
        !(o.step(report, alive) is Finish),
{
}

/// The acknowledgement of the features is advisory: without it the sequence
/// goes on as with it.
pub proof fn the_features_ack_is_advisory(o: Opening, alive: bool)
    requires
        o.wf(),
        script(o.variant)[o.at as int] == Move::Await(Awaited::Features),
    ensures
        !o.broken(Report::TimedOut),
        o.step(Report::TimedOut, alive) == o.step(Report::Done, alive),
{
}

/// A link that is gone ends its opening, whatever went well, and nothing is
/// sent on it any more.
pub proof fn a_vanished_link_stops_its_opening(o: Opening, report: Report)
    ensures
        o.step(report, false) is Stop,
{
}

impl SessionModel {
    /// Nothing observed yet, and nothing outside may be touched.
    pub open spec fn fresh(cfg: SessionConfig, ear: EarMediaModel, auto: AutoConnectState) -> SessionModel {
        SessionModel {
            cfg,
            adapter: None,
            device: None,
            pinned: false,
            acl: false,
            open: false,
            dial_at: None,
            dial_kind: None,
            generation: 0,
            suppressed: false,
            handshake_at: None,
            last_packet: None,
            battery_seen: false,
            resends: 0,
            probe_at: None,
            verify_at: None,
            verify_budget: None,
            readback_at: None,
            dial_attempt: 0,
            active: FeaturesVariant::D7,
            locked: None,
            handoff: HandoffModel::fresh(false, true),
            queued: Seq::empty(),
            bt_name: DEFAULT_BT_NAME@,
            control_audio: false,
            route: None,
            last_playback: None,
            ear,
            claim_epoch: 0,
            rejoin: None,
            auto,
            auto_epoch: 0,
            auto_control: false,
            buds: Seq::empty(),
            sequence: None,
            published: None,
            effects: Seq::empty(),
        }
    }

    /// The handoff configuration is applied.
    #[verifier::opaque]
    pub open spec fn configured(self, options: HandoffOptions) -> SessionModel {
        SessionModel {
            handoff: HandoffModel {
                enabled: options.config.enabled,
                take_over_on_play: options.config.take_over_on_play,
                ..self.handoff
            },
            bt_name: options.config.announced_name(),
            control_audio: options.control_audio_profiles,
            ..self
        }.emit(EffectModel::PublishHandoff)
    }

    /// The link that an opening belongs to is still the one selected.
    pub open spec fn alive(self, generation: u64) -> bool {
        self.acl && self.generation == generation
    }

    /// The armed dial is taken up, once. Without a selected identity there is
    /// nothing to dial, and recovery stops.
    pub open spec fn dial_begun(self, t: Moment) -> (SessionModel, Option<Dial>) {
        match self.dial_kind {
            Some(kind) => if !self.acl {
                (self, None)
            } else {
                match (self.adapter, self.device) {
                    (Some(adapter), Some(device)) => (
                        SessionModel { dial_kind: None, dial_at: None, ..self },
                        Some(Dial { kind, generation: self.generation, adapter, device }),
                    ),
                    _ => (SessionModel { dial_kind: None, ..self }.suppress(t), None),
                }
            },
            None => (self, None),
        }
    }

    /// A dial needs BlueZ to say, right before it, that the device is locally
    /// connected, and the link to be still the same. An automatic dial that
    /// cannot be authorized is not tried again.
    pub open spec fn dial_authorized(
        self,
        kind: DialKind,
        generation: u64,
        fresh: Result<bool, String>,
        t: Moment,
    ) -> (SessionModel, bool) {
        if fresh == Ok::<bool, String>(true) {
            (self, self.alive(generation))
        } else if kind == DialKind::Automatic {
            (self.suppress(t), false)
        } else {
            (self, false)
        }
    }

    /// The socket is connected: the opening starts. Ownership reports can
    /// arrive during it, and the playback reading is primed so that a player
    /// already playing is not an edge.
    #[verifier::opaque]
    pub open spec fn opening(self, t: Moment) -> SessionModel {
        let m = self.handoff_event(handoff::Event::LinkOpened, t);
        let primed = match m.last_playback {
            Some(reading) => m.handoff_event(
                handoff::Event::Playback {
                    playing: reading.playing,
                    app: reading.app,
                    player: reading.player,
                },
                t,
            ),
            None => m,
        };
        SessionModel {
            battery_seen: false,
            resends: 0,
            active: variant_for(primed.cfg.features, primed.locked, primed.dial_attempt),
            dial_attempt: (primed.dial_attempt + 1) as u32,
            ..primed
        }
    }

    /// The opening is done. The battery watchdog counts from here, and every
    /// link opens with one settings dump.
    #[verifier::opaque]
    pub open spec fn opened(self, t: Moment) -> SessionModel {
        SessionModel {
            open: true,
            handshake_at: Some(t.now),
            last_packet: Some(t.now),
            readback_at: Some((t.now + READBACK_WINDOW) as u128),
            ..self
        }.publish(Update::AapLink(true))
    }
}

impl Supervisor {
    /// A supervisor that has observed nothing. It is off in every respect
    /// until told otherwise: it never reaches for the desktop or the radio.
    pub fn new(cfg: SessionConfig) -> (r: Self)
        ensures
            r.model() == SessionModel::fresh(cfg, r.model().ear, r.model().auto),
            r.model().ear == (EarMediaModel {
                cfg: EarConfig { auto_pause: true, auto_resume: true, pause_on_one_of_two: true },
                settled: None,
                pending: None,
                playing: None,
                player: None,
                paused: None,
            }),
            r.model().auto == AutoConnectState::fresh(
                AutoconnectConfig {
                    enabled: false,
                    min_rssi: -90i16,
                    settle_seconds: 3,
                    absence_seconds: 15,
                    fallback_first_seconds: 20,
                    fallback_interval_seconds: 45,
                    fallback_minutes: 10,
                },
            ),
            r.model().valid(),
    {
        let mut config = AutoconnectConfig::default();
        config.enabled = false;
        let r = Supervisor {
            cfg,
            adapter: None,
            device: None,
            pinned: false,
            acl: false,
            open: false,
            dial_at: None,
            dial_kind: None,
            generation: 0,
            suppressed: false,
            handshake_at: None,
            last_packet: None,
            battery_seen: false,
            resends: 0,
            probe_at: None,
            verify_at: None,
            verify_budget: None,
            readback_at: None,
            dial_attempt: 0,
            active: FeaturesVariant::D7,
            locked: None,
            handoff: HandoffState::new(false, true),
            queued: Vec::new(),
            bt_name: DEFAULT_BT_NAME.to_owned(),
            control_audio: false,
            route: None,
            last_playback: None,
            ear: EarMediaState::new(EarConfig::default()),
            claim_epoch: 0,
            rejoin: None,
            auto: AutoConnectState::new(&config),
            auto_epoch: 0,
            auto_control: false,
            buds: Vec::new(),
            sequence: None,
            published: None,
            effects: Vec::new(),
        };
        proof {
            assert(r.model().queued =~= Seq::empty());
            assert(r.model().effects =~= Seq::empty());
            assert(r.model().buds =~= Seq::empty());
        }
        r
    }

    /// Set the `[ear]` policy.
    pub fn with_ear_media(self, config: EarConfig) -> (r: Self)
        ensures
            r.model() == (SessionModel { ear: r.model().ear, ..self.model() }),
            r.model().ear == (EarMediaModel {
                cfg: config,
                settled: None,
                pending: None,
                playing: None,
                player: None,
                paused: None,
            }),
    {
        let mut s = self;
        s.ear = EarMediaState::new(config);
        s
    }

    /// Enable BLE proximity auto-connect.
    pub fn with_autoconnect(self, options: AutoConnectOptions) -> (r: Self)
        requires
            options.config.fallback_minutes * 60 <= u64::MAX,
        ensures
            r.model() == (SessionModel {
                auto: r.model().auto,
                auto_control: options.control_link,
                ..self.model()
            }),
            r.model().auto == AutoConnectState::fresh(options.config),
            r.model().valid(),
    {
        let mut s = self;
        s.auto = AutoConnectState::new(&options.config);
        s.auto_control = options.control_link;
        s
    }

    /// Enable handoff side effects.
    pub fn with_handoff(self, options: HandoffOptions) -> (r: Self)
        ensures
            r.model() == self.model().configured(options),
            r.model().auto == self.model().auto,
    {
        let mut s = self;
        s.handoff.configure(options.config.enabled, options.config.take_over_on_play);
        s.bt_name = options.config.bt_name().to_owned();
        s.control_audio = options.control_audio_profiles;
        s.emit(Effect::PublishHandoff);
        proof {
            reveal(SessionModel::configured);
        }
        s
    }

    /// Whether the link an opening belongs to is still the one selected.
    pub fn opening_alive(&self, generation: u64) -> (r: bool)
        ensures
            r == self.model().alive(generation),
    {
        self.acl && self.generation == generation
    }

    /// Take the armed dial up. `None` means that there is nothing to dial.
    pub fn begin_dial(&mut self, t: &Moment) -> (r: Option<Dial>)
        requires
            old(self).model().valid(),
        ensures
            (final(self).model(), r) == old(self).model().dial_begun(*t),
            final(self).model().valid(),
    {
        if !self.acl {
            return None;
        }
        let kind: DialKind = match self.dial_kind {
            Some(kind) => kind,
            None => {
                return None;
            },
        };
        self.dial_kind = None;
        match (self.adapter, self.device) {
            (Some(adapter), Some(device)) => {
                self.dial_at = None;
                Some(Dial { kind, generation: self.generation, adapter, device })
            },
            _ => {
                self.suppress_automatic(t);
                None
            },
        }
    }

    /// Consume the fresh check of the local link that precedes a dial.
    pub fn authorize_dial(
        &mut self,
        kind: DialKind,
        generation: u64,
        fresh: Result<bool, String>,
        t: &Moment,
    ) -> (r: bool)
        requires
            old(self).model().valid(),
        ensures
            (final(self).model(), r) == old(self).model().dial_authorized(
                kind,
                generation,
                fresh,
                *t,
            ),
            final(self).model().valid(),
    {
        match fresh {
            Ok(true) => self.opening_alive(generation),
            _ => {
                if kind == DialKind::Automatic {
                    self.suppress_automatic(t);
                }
                false
            },
        }
    }

    /// The socket is connected: start the opening. The result is the
    /// set-features variant of this dial.
    pub fn begin_opening(&mut self, t: &Moment) -> (r: FeaturesVariant)
        requires
            old(self).model().valid(),
            old(self).model().dial_attempt < u32::MAX,
        ensures
            final(self).model() == old(self).model().opening(*t),
            r == final(self).model().active,
            final(self).model().valid(),
    {
        proof {
            reveal(SessionModel::opening);
            let m = self.model();
            let m1 = m.handoff_event(handoff::Event::LinkOpened, *t);
            super::handoff_event_keeps(m, handoff::Event::LinkOpened, *t);
            if let Some(reading) = m1.last_playback {
                super::handoff_event_keeps(
                    m1,
                    handoff::Event::Playback {
                        playing: reading.playing,
                        app: reading.app,
                        player: reading.player,
                    },
                    *t,
                );
            }
        }
        self.handoff_event(handoff::Event::LinkOpened, t);
        if let Some(reading) = self.last_playback.clone() {
            self.handoff_event(
                handoff::Event::Playback {
                    playing: reading.playing,
                    app: reading.app,
                    player: reading.player,
                },
                t,
            );
        }
        self.battery_seen = false;
        self.resends = 0;
        let variant = pick_variant(self.cfg.features, self.locked, self.dial_attempt);
        self.active = variant;
        self.dial_attempt = self.dial_attempt + 1;
        variant
    }

    /// The opening is done: the AAP link is up.
    pub fn finish_opening(&mut self, t: &Moment)
        requires
            old(self).model().valid(),
            t.now + READBACK_WINDOW <= u128::MAX,
        ensures
            final(self).model() == old(self).model().opened(*t),
            final(self).model().valid(),
    {
        proof {
            reveal(SessionModel::opened);
        }
        self.open = true;
        self.handshake_at = Some(t.now);
        self.last_packet = Some(t.now);
        self.publish(Update::AapLink(true));
        self.readback_at = Some(t.now + READBACK_WINDOW);
    }

    /// What is to be done, in order. The list starts anew.
    pub fn take_effects(&mut self) -> (r: Vec<Effect>)
        ensures
            super::effect_views(r@) == old(self).model().effects,
            final(self).model() == (SessionModel { effects: Seq::empty(), ..old(self).model() }),
    {
        let mut out: Vec<Effect> = Vec::new();
        std::mem::swap(&mut out, &mut self.effects);
        proof {
            assert(super::effect_views(self.effects@) =~= Seq::empty());
        }
        out
    }

    /// The published handoff section.
    pub fn handoff_view(&self) -> (r: crate::state::Handoff)
        ensures
            handoff::publishes(r, self.model().handoff),
    {
        self.handoff.view()
    }

    /// Whether discovery for the proximity advert is wanted.
    pub fn should_scan(&self) -> (r: bool)
        ensures
            r == (self.model().auto.enabled && !self.model().auto.connected),
    {
        self.auto.should_scan()
    }

    /// The knobs from the environment.
    pub fn config(&self) -> (r: SessionConfig)
        ensures
            r == self.model().cfg,
    {
        self.cfg
    }

    /// Whether the classic link is up.
    pub fn is_local(&self) -> (r: bool)
        ensures
            r == self.model().acl,
    {
        self.acl
    }

    /// Whether the AAP link is up.
    pub fn is_open(&self) -> (r: bool)
        ensures
            r == self.model().open,
    {
        self.open
    }

    /// Why a dial is armed.
    pub fn dial_kind(&self) -> (r: Option<DialKind>)
        ensures
            r == self.model().dial_kind,
    {
        self.dial_kind
    }

    /// When the armed dial is due.
    pub fn dial_at(&self) -> (r: Option<Instant>)
        ensures
            r == self.model().dial_at,
    {
        self.dial_at
    }

    /// The number of the selected link.
    pub fn link_generation(&self) -> (r: u64)
        ensures
            r == self.model().generation,
    {
        self.generation
    }

    /// Whether unattended recovery is off.
    pub fn auto_suppressed(&self) -> (r: bool)
        ensures
            r == self.model().suppressed,
    {
        self.suppressed
    }

    /// Dials made in this local link period.
    pub fn dial_attempt(&self) -> (r: u32)
        ensures
            r == self.model().dial_attempt,
    {
        self.dial_attempt
    }

    /// Changes whenever this host does not own the audio.
    pub fn claim_epoch(&self) -> (r: u64)
        ensures
            r == self.model().claim_epoch,
    {
        self.claim_epoch
    }

    /// Sequence allowed to call `Device1.Connect`; zero after a cancel.
    pub fn autoconnect_epoch(&self) -> (r: u64)
        ensures
            r == self.model().auto_epoch,
    {
        self.auto_epoch
    }

    /// Whether auto-connect has a connect scheduled or in flight.
    pub fn autoconnect_pending(&self) -> (r: bool)
        ensures
            r == (self.model().auto.pending is Some),
    {
        self.auto.is_pending()
    }

    /// Whether audio profiles and the local card may be changed.
    pub fn controls_audio(&self) -> (r: bool)
        ensures
            r == (self.model().control_audio && self.model().device is Some),
    {
        self.control_audio && self.device.is_some()
    }

    /// Whether a local player was playing at the latest reading.
    pub fn is_playing(&self) -> (r: bool)
        ensures
            r == (self.model().last_playback matches Some(reading) && reading.playing),
    {
        match &self.last_playback {
            Some(reading) => reading.playing,
            None => false,
        }
    }

    /// Whether every deadline an event can set at `now` fits the clock, and
    /// every number it can give out fits its counter.
    pub fn is_ready(&self, now: Instant) -> (r: bool)
        ensures
            r == self.model().ready(now),
    {
        now <= u128::MAX - super::LONGEST_DEADLINE && self.auto.seq < u64::MAX && now <= u128::MAX
            - self.auto.settle && now <= u128::MAX - self.auto.fallback_first && now <= u128::MAX
            - self.auto.fallback_interval && (match self.auto.fallback_from {
            Some(from) => from <= u128::MAX - self.auto.fallback_first,
            None => true,
        })
    }
}

} // verus!
