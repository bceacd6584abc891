//! BLE proximity-triggered auto-connect.
//!
//! A host that listens for the AirPods' proximity-pairing advert can page them
//! when they leave their case. Two rules keep that from becoming a policy of
//! its own:
//!
//! * One presence episode gets at most one connect sequence. An episode ends
//!   only after the configured absence without a qualifying advert, which in
//!   practice means the AirPods went back in the case.
//! * A manual command, or a local disconnect this daemon did not cause,
//!   disarms the machine until the next absence.
//!
//! The advert is not always there to see, so a bounded page fallback covers a
//! remote or timed-out drop: one page after the first wait, then one per
//! interval, until the budget is spent. The fallback never runs while an
//! advert episode, a rejoin or another page is in flight, so there is only
//! one page at a time.
use crate::address::Address;
use crate::clock::{elapsed, since, Duration, Instant, SECOND};
use crate::config::AutoconnectConfig;
use crate::models::{a_padded_number_reads_back, hex_padded};
use crate::rejoin::{Outcome, Reason};
use crate::text::{
    a_trimmed_core, chars_of, hex_below, hex_number_keeps_case, lowered, parse_hex, same_text, trim,
    trimmed, white_space,
};
use vstd::prelude::*;
use vstd::string::*;

verus! {

/// Connects allowed in one presence episode.
pub const MAX_ATTEMPTS: u8 = 4;

/// A retry needs an advert at least this fresh. Without one the AirPods are
/// gone again and further pages would only be noise.
pub const ADVERT_FRESH: Duration = 10 * SECOND;

/// Apple's Bluetooth company identifier.
pub const APPLE_COMPANY_ID: u16 = 0x004c;

/// AirPods 4 (ANC), used when the accessory's DID product id is not known yet.
pub const DEFAULT_MODEL_ID: u16 = 0x201b;

/// Devices whose property stream the scanner follows at once. A cap keeps one
/// crowded room from costing unbounded subscriptions. Removed devices give
/// their slot back.
pub const WATCHED_CAP: usize = 64;

/// Wait before connect number `attempt + 1` of an episode.
pub open spec fn retry_backoff(attempt: int) -> Duration {
    if attempt == 1 {
        (5 * SECOND) as u128
    } else if attempt == 2 {
        (15 * SECOND) as u128
    } else {
        (45 * SECOND) as u128
    }
}

/// One qualifying advert, as the scanner saw it.
#[derive(Debug, Clone, Copy, PartialEq, Eq)]
pub struct Sighting {
    /// Resolvable private address the advert came from. It changes roughly
    /// every fifteen minutes and is only used to key the last RSSI.
    pub address: Address,
    /// Last RSSI reported for that address, if BlueZ has given one yet.
    pub rssi: Option<i16>,
}

/// The model id a text names, or the default.
pub open spec fn model_number(model_id: Seq<char>) -> int {
    match hex_below(trimmed(model_id), 0x10000) {
        Some(n) => n,
        None => DEFAULT_MODEL_ID as int,
    }
}

/// The two model bytes of an Apple proximity-pairing advert, little-endian,
/// derived from the hexadecimal product id (`"201B"`). Anything unreadable
/// falls back to [`DEFAULT_MODEL_ID`].
pub fn model_bytes(model_id: &str) -> (r: [u8; 2])
    ensures
        r@ == seq![(model_number(model_id@) % 256) as u8, (model_number(model_id@) / 256) as u8],
        hex_below(trimmed(model_id@), 0x10000) is None ==> r@ == seq![0x1bu8, 0x20u8],
{
    let n: u32 = match parse_hex(&trim(&chars_of(model_id)), 0x10000) {
        Some(n) => n,
        None => DEFAULT_MODEL_ID as u32,
    };
    let r: [u8; 2] = [(n % 256) as u8, (n / 256) as u8];
    proof {
        assert(r@ =~= seq![
            (model_number(model_id@) % 256) as u8,
            (model_number(model_id@) / 256) as u8,
        ]);
    }
    r
}

/// A model id reads back as the product it was made from, in either case and
/// with white space around it.
pub proof fn a_model_id_reads_back(
    product: u32,
    before: Seq<char>,
    digits: Seq<char>,
    after: Seq<char>,
)
    requires
        product <= 0xFFFF,
        lowered(digits) == lowered(hex_padded(product as nat, 4)),
        forall|i: int| 0 <= i < before.len() ==> white_space(#[trigger] before[i]),
        forall|i: int| 0 <= i < after.len() ==> white_space(#[trigger] after[i]),
    ensures
        model_number(before + digits + after) == product,
{
    a_padded_number_reads_back(product as nat, 4);
    hex_number_keeps_case(digits, hex_padded(product as nat, 4));
    a_trimmed_core(before, digits, after);
}

/// A proximity-pairing advert from the watched model, sent outside pairing
/// mode: byte 0 is the type, byte 2 says not in pairing mode, bytes 3 and 4
/// are the model id.
pub open spec fn qualifying(data: Seq<u8>, model: Seq<u8>) -> bool {
    data.len() >= 5 && data[0] == 0x07 && data[2] == 0x01 && data.subrange(3, 5) == model
}

/// Is this Apple manufacturer-data blob a proximity-pairing advert from the
/// watched model, sent outside pairing mode? Everything after the model id is
/// the encrypted status block, which is never read here.
pub fn qualifies(data: &[u8], model: [u8; 2]) -> (r: bool)
    ensures
        r == qualifying(data@, model@),
{
    proof {
        if data@.len() >= 5 {
            assert(data@.subrange(3, 5) =~= seq![data@[3], data@[4]]);
            assert(model@ =~= seq![model@[0], model@[1]]);
            if data@.subrange(3, 5) == model@ {
                assert(data@.subrange(3, 5)[0] == model@[0]);
                assert(data@.subrange(3, 5)[1] == model@[1]);
            }
        }
    }
    data.len() >= 5 && data[0] == 0x07 && data[2] == 0x01 && data[3] == model[0] && data[4]
        == model[1]
}

/// Something the supervisor observed.
#[derive(Debug, Clone, PartialEq, Eq)]
pub enum Event {
    /// A qualifying advert from the watched model.
    Seen {
        /// RSSI of the advertising address, if known.
        rssi: Option<i16>,
    },
    /// Periodic tick; fires a due connect.
    Tick,
    /// BlueZ reports the classic link up.
    LocalConnected,
    /// BlueZ reports the classic link down.
    LocalDisconnected {
        /// Parsed reason, or [`Reason::Unknown`] when only the `Connected`
        /// property moved.
        reason: Reason,
    },
    /// An explicit `reconnect` or `connect-once` command.
    ManualCommand,
    /// A connect started by [`Action::Connect`] finished.
    ConnectFinished {
        /// Sequence the connect belonged to.
        seq: u64,
        /// Result.
        outcome: Outcome,
    },
}

/// A side effect or decision for the supervisor to perform or log.
#[derive(Debug, Clone, PartialEq, Eq)]
pub enum Action {
    /// A presence episode began; the first connect is due after the settle.
    EpisodeStarted {
        /// RSSI of the advert that started it.
        rssi: Option<i16>,
        /// Wait before the first connect.
        delay: Duration,
    },
    /// An advert that could have started an episode did not.
    Skipped(&'static str),
    /// Re-check the adapter and device, then call `Device1.Connect` once.
    Connect {
        /// Sequence to report back in [`Event::ConnectFinished`].
        seq: u64,
        /// 1-based attempt number.
        attempt: u8,
    },
    /// The connect failed and will be tried again.
    Retry {
        /// Attempt number of the next connect.
        attempt: u8,
        /// Delay before it.
        wait: Duration,
    },
    /// The auto-connect got the link.
    Connected,
    /// A scheduled connect was abandoned.
    Cancelled(&'static str),
    /// The episode ran out of attempts or hit an error.
    GaveUp(String),
    /// Auto-connect is off until the next absence.
    Disarmed(&'static str),
    /// An absence was observed; auto-connect is armed again.
    Rearmed,
    /// No advert arrived, so this host pages anyway. [`Action::Connect`]
    /// follows immediately.
    FallbackPage {
        /// How long the AirPods have been away.
        away: Duration,
        /// Wait before the next fallback page, if the budget allows one.
        next: Duration,
    },
    /// A fallback page did not get the link; the next slot still comes.
    FallbackFailed(String),
}

/// An action with its texts read as sequences.
#[verifier::ext_equal]
pub enum ActionModel {
    /// See [`Action::EpisodeStarted`].
    EpisodeStarted {
        /// RSSI of the advert that started it.
        rssi: Option<i16>,
        /// Wait before the first connect.
        delay: Duration,
    },
    /// See [`Action::Skipped`].
    Skipped(Seq<char>),
    /// See [`Action::Connect`].
    Connect {
        /// Sequence.
        seq: u64,
        /// 1-based attempt number.
        attempt: u8,
    },
    /// See [`Action::Retry`].
    Retry {
        /// Attempt number of the next connect.
        attempt: u8,
        /// Delay before it.
        wait: Duration,
    },
    /// See [`Action::Connected`].
    Connected,
    /// See [`Action::Cancelled`].
    Cancelled(Seq<char>),
    /// See [`Action::GaveUp`].
    GaveUp(Seq<char>),
    /// See [`Action::Disarmed`].
    Disarmed(Seq<char>),
    /// See [`Action::Rearmed`].
    Rearmed,
    /// See [`Action::FallbackPage`].
    FallbackPage {
        /// How long the AirPods have been away.
        away: Duration,
        /// Wait before the next fallback page.
        next: Duration,
    },
    /// See [`Action::FallbackFailed`].
    FallbackFailed(Seq<char>),
}

impl View for Action {
    type V = ActionModel;

    open spec fn view(&self) -> ActionModel {
        match *self {
            Action::EpisodeStarted { rssi, delay } => ActionModel::EpisodeStarted { rssi, delay },
            Action::Skipped(why) => ActionModel::Skipped(why@),
            Action::Connect { seq, attempt } => ActionModel::Connect { seq, attempt },
            Action::Retry { attempt, wait } => ActionModel::Retry { attempt, wait },
            Action::Connected => ActionModel::Connected,
            Action::Cancelled(why) => ActionModel::Cancelled(why@),
            Action::GaveUp(why) => ActionModel::GaveUp(why@),
            Action::Disarmed(why) => ActionModel::Disarmed(why@),
            Action::Rearmed => ActionModel::Rearmed,
            Action::FallbackPage { away, next } => ActionModel::FallbackPage { away, next },
            Action::FallbackFailed(why) => ActionModel::FallbackFailed(why@),
        }
    }
}

/// The actions of a list, texts read as sequences.
pub open spec fn action_views(actions: Seq<Action>) -> Seq<ActionModel> {
    actions.map_values(|a: Action| a@)
}

/// A connect that is scheduled or in flight.
#[derive(Debug, Clone, Copy, PartialEq, Eq, Structural)]
pub struct Pending {
    /// Sequence the connect belongs to.
    pub seq: u64,
    /// 1-based attempt number.
    pub attempt: u8,
    /// When the connect is due.
    pub due: Instant,
    /// `Device1.Connect` has been called and has not returned.
    pub in_flight: bool,
    /// Started by the page fallback rather than by an advert: one page per
    /// slot, no retry backoff.
    pub fallback: bool,
}

/// Everything [`decide`] remembers.
#[derive(Debug, Clone, Copy, PartialEq, Eq, Structural)]
pub struct AutoConnectState {
    /// The feature is on.
    pub enabled: bool,
    /// Weakest advert that counts.
    pub min_rssi: i16,
    /// A rejoin connect is scheduled or in flight; this machine never pages
    /// over it.
    pub rejoin_pending: bool,
    /// Wait between the first advert and the first connect.
    pub settle: Duration,
    /// Silence that ends an episode.
    pub absence: Duration,
    /// The classic link is up.
    pub connected: bool,
    /// Off until the next absence.
    pub disarmed: bool,
    /// Last qualifying advert, or the last link change. A link change anchors
    /// the absence clock so that a drop the user or another host caused is
    /// not read as a case opening.
    pub last_seen: Option<Instant>,
    /// An episode has already had its connect sequence.
    pub episode: bool,
    /// The connect scheduled or in flight.
    pub pending: Option<Pending>,
    /// Latest sequence number given out.
    pub seq: u64,
    /// Wait before the first page without an advert.
    pub fallback_first: Duration,
    /// Wait between later pages without an advert.
    pub fallback_interval: Duration,
    /// How long pages without an advert go on.
    pub fallback_budget: Duration,
    /// When the current away period began, or `None` when the page fallback
    /// does not apply to it.
    pub fallback_from: Option<Instant>,
    /// Earliest next fallback page; `None` means the first one is still due.
    pub fallback_next: Option<Instant>,
    /// The state was built with no link and has not seen a clock yet.
    pub fallback_start: bool,
}

/// A number of seconds as a duration.
pub open spec fn seconds(n: int) -> Duration {
    (n * SECOND) as u128
}

fn from_seconds(n: u64) -> (r: Duration)
    ensures
        r == seconds(n as int),
        r == n * SECOND,
{
    n as u128 * SECOND
}

/// Why a connect did not get the link, in words.
pub open spec fn described(outcome: Outcome) -> Seq<char> {
    match outcome {
        Outcome::Connected => "connected"@,
        Outcome::Busy => "br-connection-busy"@,
        Outcome::Failed(e) => e@,
        Outcome::NotReady(why) => why@,
    }
}

/// Somebody else already has the link, or the sequence was superseded: not a
/// failure to retry around.
pub open spec fn overtaken(outcome: Outcome) -> bool {
    outcome matches Outcome::NotReady(why) && (why@ == "connected_by_other_means"@ || why@
        == "superseded"@)
}

/// A state and the actions that led to it.
pub type Step = (AutoConnectState, Seq<ActionModel>);

impl AutoConnectState {
    /// Attempts count from one to the limit.
    pub open spec fn valid(self) -> bool {
        self.pending matches Some(p) ==> 1 <= p.attempt <= MAX_ATTEMPTS
    }

    /// What the configuration starts with: nothing seen and nothing scheduled.
    pub open spec fn fresh(config: AutoconnectConfig) -> AutoConnectState {
        AutoConnectState {
            enabled: config.enabled,
            min_rssi: config.min_rssi,
            rejoin_pending: false,
            settle: seconds(config.settle_seconds as int),
            absence: seconds(config.absence_seconds as int),
            connected: false,
            disarmed: false,
            last_seen: None,
            episode: false,
            pending: None,
            seq: 0,
            fallback_first: seconds(config.fallback_first_seconds as int),
            fallback_interval: seconds(config.fallback_interval_seconds as int),
            fallback_budget: seconds(config.fallback_minutes * 60),
            fallback_from: None,
            fallback_next: None,
            fallback_start: true,
        }
    }

    /// The connects the pending sequence is shown with: those started, not the
    /// one that is only scheduled.
    pub open spec fn attempt_shown(self) -> int {
        match self.pending {
            Some(p) => if p.in_flight {
                p.attempt as int
            } else {
                p.attempt - 1
            },
            None => 0,
        }
    }

    /// A scheduled or running connect is abandoned.
    pub open spec fn cancelled(self, why: Seq<char>) -> Step {
        (
            AutoConnectState { pending: None, ..self },
            if self.pending is Some {
                seq![ActionModel::Cancelled(why)]
            } else {
                Seq::empty()
            },
        )
    }

    /// Off until the next absence.
    pub open spec fn disarmed_by(self, why: Seq<char>) -> Step {
        let (s, out) = self.cancelled(why);
        (
            AutoConnectState { disarmed: true, ..s },
            if self.disarmed {
                out
            } else {
                out.push(ActionModel::Disarmed(why))
            },
        )
    }

    /// No more pages without an advert until the next qualifying drop.
    pub open spec fn without_fallback(self) -> AutoConnectState {
        AutoConnectState { fallback_from: None, fallback_next: None, ..self }
    }

    /// Nothing qualifying has been seen for the configured absence.
    pub open spec fn absent(self, now: Instant) -> bool {
        match self.last_seen {
            Some(t) => elapsed(now, t) >= self.absence,
            None => true,
        }
    }

    /// The state once the first clock reading has anchored a daemon that
    /// started with the AirPods away.
    pub open spec fn anchored(self, now: Instant) -> AutoConnectState {
        AutoConnectState {
            fallback_start: false,
            fallback_from: if self.fallback_start && !self.connected {
                Some(now)
            } else {
                self.fallback_from
            },
            ..self
        }
    }

    /// When the next page without an advert is due, counting from `from`.
    pub open spec fn fallback_due(self, from: Instant) -> int {
        match self.fallback_next {
            Some(t) => t as int,
            None => from + self.fallback_first,
        }
    }
}

/// An advert was seen.
pub open spec fn on_seen(s: AutoConnectState, rssi: Option<i16>, now: Instant) -> Step {
    if !s.enabled {
        (s, Seq::empty())
    } else if rssi matches Some(r) && r < s.min_rssi {
        (s, seq![ActionModel::Skipped("rssi_below_min"@)])
    } else {
        let s1 = AutoConnectState { last_seen: Some(now), ..s };
        if s.pending is Some || !s.absent(now) {
            (s1, Seq::empty())
        } else {
            let out = if s.disarmed {
                seq![ActionModel::Rearmed]
            } else {
                Seq::empty()
            };
            let s2 = AutoConnectState { episode: false, disarmed: false, ..s1 };
            if s.connected {
                (s2, out.push(ActionModel::Skipped("already_connected"@)))
            } else if s.rejoin_pending {
                (s2, out.push(ActionModel::Skipped("rejoin_pending"@)))
            } else {
                let seq = (s.seq + 1) as u64;
                (
                    AutoConnectState {
                        seq,
                        episode: true,
                        pending: Some(
                            Pending {
                                seq,
                                attempt: 1,
                                due: (now + s.settle) as u128,
                                in_flight: false,
                                fallback: false,
                            },
                        ),
                        ..s2
                    },
                    out.push(ActionModel::EpisodeStarted { rssi, delay: s.settle }),
                )
            }
        }
    }
}

/// Page without an advert, if this away period still has a slot for it: the
/// feature is on, the fallback has a budget, the AirPods are away after a drop
/// this host did not ask for, the machine is armed, no rejoin owns the link,
/// and the slot is due inside the budget.
pub open spec fn fallback_step(s: AutoConnectState, now: Instant) -> Step {
    if s.enabled && !s.connected && !s.disarmed && !s.rejoin_pending && s.fallback_budget > 0 && (
    s.fallback_from matches Some(from) && elapsed(now, from) <= s.fallback_budget && now
        >= s.fallback_due(from)) {
        let seq = (s.seq + 1) as u64;
        (
            AutoConnectState {
                seq,
                fallback_next: Some((now + s.fallback_interval) as u128),
                pending: Some(
                    Pending { seq, attempt: 1, due: now, in_flight: true, fallback: true },
                ),
                ..s
            },
            seq![
                ActionModel::FallbackPage {
                    away: elapsed(now, s.fallback_from->0),
                    next: s.fallback_interval,
                },
                ActionModel::Connect { seq, attempt: 1 },
            ],
        )
    } else {
        (s, Seq::empty())
    }
}

/// The periodic tick.
pub open spec fn on_tick(s: AutoConnectState, now: Instant) -> Step {
    match s.pending {
        None => fallback_step(s, now),
        Some(p) => if p.in_flight || now < p.due {
            (s, Seq::empty())
        } else if !s.enabled {
            s.cancelled("disabled"@)
        } else if s.connected {
            s.cancelled("already_connected"@)
        } else if s.rejoin_pending {
            s.cancelled("rejoin_pending"@)
        } else if p.attempt > 1 && (s.last_seen matches Some(t) ==> elapsed(now, t)
            > ADVERT_FRESH) {
            s.cancelled("stale_adverts"@)
        } else {
            (
                AutoConnectState { pending: Some(Pending { in_flight: true, ..p }), ..s },
                seq![ActionModel::Connect { seq: p.seq, attempt: p.attempt }],
            )
        },
    }
}

/// The link came up.
pub open spec fn on_connected(s: AutoConnectState, now: Instant) -> Step {
    (
        AutoConnectState {
            connected: true,
            last_seen: Some(now),
            pending: None,
            ..s.without_fallback()
        },
        match s.pending {
            Some(p) => if p.in_flight {
                seq![ActionModel::Connected]
            } else {
                seq![ActionModel::Cancelled("already_connected"@)]
            },
            None => Seq::empty(),
        },
    )
}

/// The link went down. Only a drop this host did not ask for earns a page
/// without an advert, and one this host made disarms.
pub open spec fn on_disconnected(s: AutoConnectState, reason: Reason, now: Instant) -> Step {
    let (s1, out) = AutoConnectState { connected: false, last_seen: Some(now), ..s }.cancelled(
        "disconnected"@,
    );
    let s2 = match reason {
        Reason::Remote => AutoConnectState {
            fallback_from: Some(now),
            fallback_next: None,
            ..s1
        },
        Reason::Timeout => AutoConnectState {
            fallback_from: Some(now),
            fallback_next: None,
            ..s1
        },
        Reason::Unknown => s1,
        _ => s1.without_fallback(),
    };
    if reason == Reason::Local {
        let (s3, more) = s2.disarmed_by("local_disconnect"@);
        (s3, out + more)
    } else {
        (s2, out)
    }
}

/// What is said after the last attempt.
pub open spec fn gave_up(outcome: Outcome) -> ActionModel {
    ActionModel::GaveUp("4 connects did not take: "@ + described(outcome))
}

/// A connect finished.
pub open spec fn on_finished(
    s: AutoConnectState,
    seq: u64,
    outcome: Outcome,
    now: Instant,
) -> Step {
    let idle = AutoConnectState { pending: None, ..s };
    match s.pending {
        Some(p) => if p.seq != seq || !p.in_flight {
            (s, Seq::empty())
        } else if outcome is Connected {
            (
                AutoConnectState {
                    connected: true,
                    ..if p.fallback {
                        idle.without_fallback()
                    } else {
                        idle
                    }
                },
                seq![ActionModel::Connected],
            )
        } else if overtaken(outcome) {
            (
                if p.fallback && described(outcome) == "connected_by_other_means"@ {
                    idle.without_fallback()
                } else {
                    idle
                },
                seq![ActionModel::Cancelled(described(outcome))],
            )
        } else if p.fallback {
            (idle, seq![ActionModel::FallbackFailed(described(outcome))])
        } else if p.attempt < MAX_ATTEMPTS {
            let wait = retry_backoff(p.attempt as int);
            let attempt = (p.attempt + 1) as u8;
            (
                AutoConnectState {
                    pending: Some(
                        Pending { attempt, due: (now + wait) as u128, in_flight: false, ..p },
                    ),
                    ..s
                },
                seq![ActionModel::Retry { attempt, wait }],
            )
        } else {
            (idle, seq![gave_up(outcome)])
        },
        None => (s, Seq::empty()),
    }
}

/// The whole state machine: the state after one event, and what to do.
#[verifier::opaque]
pub open spec fn step(before: AutoConnectState, event: Event, now: Instant) -> Step {
    let s = before.anchored(now);
    match event {
        Event::Seen { rssi } => on_seen(s, rssi, now),
        Event::Tick => on_tick(s, now),
        Event::LocalConnected => on_connected(s, now),
        Event::LocalDisconnected { reason } => on_disconnected(s, reason, now),
        Event::ManualCommand => s.disarmed_by("manual_command"@),
        Event::ConnectFinished { seq, outcome } => on_finished(s, seq, outcome, now),
    }
}

/// Every deadline the event can set fits the clock, and every sequence number
/// it can give out fits the counter.
pub open spec fn representable(s: AutoConnectState, event: Event, now: Instant) -> bool {
    match event {
        Event::Seen { .. } => s.seq < u64::MAX && now + s.settle <= u128::MAX,
        Event::Tick => s.seq < u64::MAX && now + s.fallback_interval <= u128::MAX && (
        s.anchored(now).fallback_from matches Some(from) ==> from + s.fallback_first <= u128::MAX),
        Event::ConnectFinished { .. } => now + 45 * SECOND <= u128::MAX,
        _ => true,
    }
}

impl AutoConnectState {
    /// Fresh state from configuration. Nothing is armed until the first
    /// qualifying advert arrives.
    pub fn new(config: &AutoconnectConfig) -> (r: Self)
        requires
            config.fallback_minutes * 60 <= u64::MAX,
        ensures
            r.valid(),
            r == AutoConnectState::fresh(*config),
    {
        AutoConnectState {
            enabled: config.enabled,
            min_rssi: config.min_rssi,
            rejoin_pending: false,
            settle: from_seconds(config.settle_seconds),
            absence: from_seconds(config.absence_seconds),
            connected: false,
            disarmed: false,
            last_seen: None,
            episode: false,
            pending: None,
            seq: 0,
            fallback_first: from_seconds(config.fallback_first_seconds),
            fallback_interval: from_seconds(config.fallback_interval_seconds),
            fallback_budget: from_seconds(config.fallback_minutes * 60),
            fallback_from: None,
            fallback_next: None,
            fallback_start: true,
        }
    }

    /// Should the scanner be running right now? Discovery costs radio time
    /// and only matters while the AirPods are not already here.
    pub fn should_scan(&self) -> (r: bool)
        ensures
            r == (self.enabled && !self.connected),
    {
        self.enabled && !self.connected
    }

    /// A connect is scheduled or in flight.
    pub fn is_pending(&self) -> (r: bool)
        ensures
            r == self.pending is Some,
    {
        self.pending.is_some()
    }

    /// Sequence number of the connect that is scheduled or in flight.
    pub fn pending_seq(&self) -> (r: Option<u64>)
        ensures
            r == match self.pending {
                Some(p) => Some(p.seq),
                None => None,
            },
    {
        match self.pending {
            Some(p) => Some(p.seq),
            None => None,
        }
    }

    /// `Device1.Connect` calls started in the pending episode; `0` while it
    /// is only scheduled.
    pub fn pending_attempt(&self) -> (r: u8)
        requires
            self.valid(),
        ensures
            r == self.attempt_shown(),
    {
        match self.pending {
            Some(p) => if p.in_flight {
                p.attempt
            } else {
                p.attempt - 1
            },
            None => 0,
        }
    }

    /// Auto-connect is off until the next absence.
    pub fn is_disarmed(&self) -> (r: bool)
        ensures
            r == self.disarmed,
    {
        self.disarmed
    }

    fn cancel(&mut self, why: &'static str) -> (r: Vec<Action>)
        ensures
            (*final(self), action_views(r@)) == old(self).cancelled(why@),
    {
        let mut out: Vec<Action> = Vec::new();
        if self.pending.is_some() {
            out.push(Action::Cancelled(why));
        }
        self.pending = None;
        proof {
            assert(action_views(out@) =~= old(self).cancelled(why@).1);
        }
        out
    }

    /// The AirPods are here, or somebody else has them.
    fn end_fallback(&mut self)
        ensures
            *final(self) == old(self).without_fallback(),
    {
        self.fallback_from = None;
        self.fallback_next = None;
    }

    fn disarm(&mut self, why: &'static str) -> (r: Vec<Action>)
        ensures
            (*final(self), action_views(r@)) == old(self).disarmed_by(why@),
    {
        let mut out: Vec<Action> = self.cancel(why);
        let ghost before = action_views(out@);
        if !self.disarmed {
            self.disarmed = true;
            out.push(Action::Disarmed(why));
            proof {
                assert(action_views(out@) =~= before.push(ActionModel::Disarmed(why@)));
            }
        }
        out
    }

    fn absence_passed(&self, now: Instant) -> (r: bool)
        ensures
            r == self.absent(now),
    {
        match self.last_seen {
            Some(t) => since(now, t) >= self.absence,
            None => true,
        }
    }

    fn on_seen(&mut self, rssi: Option<i16>, now: Instant) -> (r: Vec<Action>)
        requires
            old(self).seq < u64::MAX,
            now + old(self).settle <= u128::MAX,
        ensures
            (*final(self), action_views(r@)) == on_seen(*old(self), rssi, now),
    {
        let mut out: Vec<Action> = Vec::new();
        proof {
            assert(action_views(out@) =~= Seq::empty());
        }
        if !self.enabled {
            return out;
        }
        // A weak advert is another room, or the case across the desk. It is
        // not evidence of presence, so it does not even count against the
        // absence clock.
        if let Some(r) = rssi {
            if r < self.min_rssi {
                out.push(Action::Skipped("rssi_below_min"));
                proof {
                    assert(action_views(out@) =~= seq![ActionModel::Skipped("rssi_below_min"@)]);
                }
                return out;
            }
        }
        let absent = self.absence_passed(now);
        self.last_seen = Some(now);
        // A sequence already running owns this episode. Sparse adverts must
        // not restart it and hand it a fresh attempt budget.
        if self.pending.is_some() || !absent {
            return out;
        }
        self.episode = false;
        if self.disarmed {
            self.disarmed = false;
            out.push(Action::Rearmed);
        }
        let ghost head = action_views(out@);
        proof {
            assert(head =~= if old(self).disarmed {
                seq![ActionModel::Rearmed]
            } else {
                Seq::empty()
            });
        }
        if self.connected {
            out.push(Action::Skipped("already_connected"));
            proof {
                assert(action_views(out@) =~= head.push(
                    ActionModel::Skipped("already_connected"@),
                ));
            }
            return out;
        }
        if self.rejoin_pending {
            out.push(Action::Skipped("rejoin_pending"));
            proof {
                assert(action_views(out@) =~= head.push(ActionModel::Skipped("rejoin_pending"@)));
            }
            return out;
        }
        self.seq = self.seq + 1;
        self.episode = true;
        self.pending = Some(
            Pending {
                seq: self.seq,
                attempt: 1,
                due: now + self.settle,
                in_flight: false,
                fallback: false,
            },
        );
        out.push(Action::EpisodeStarted { rssi, delay: self.settle });
        proof {
            assert(action_views(out@) =~= head.push(
                ActionModel::EpisodeStarted { rssi, delay: self.settle },
            ));
        }
        out
    }

    fn on_tick(&mut self, now: Instant) -> (r: Vec<Action>)
        requires
            old(self).seq < u64::MAX,
            now + old(self).fallback_interval <= u128::MAX,
            old(self).fallback_from matches Some(from) ==> from + old(self).fallback_first
                <= u128::MAX,
        ensures
            (*final(self), action_views(r@)) == on_tick(*old(self), now),
    {
        let mut out: Vec<Action> = Vec::new();
        proof {
            assert(action_views(out@) =~= Seq::empty());
        }
        let p: Pending = match self.pending {
            Some(p) => p,
            None => {
                return fallback_page(self, now);
            },
        };
        if p.in_flight || now < p.due {
            return out;
        }
        if !self.enabled {
            return self.cancel("disabled");
        }
        if self.connected {
            return self.cancel("already_connected");
        }
        if self.rejoin_pending {
            return self.cancel("rejoin_pending");
        }
        // The settle wait is the user's choice, so the first connect is not
        // held to the freshness rule; a retry is.
        let stale = match self.last_seen {
            Some(t) => since(now, t) > ADVERT_FRESH,
            None => true,
        };
        if p.attempt > 1 && stale {
            return self.cancel("stale_adverts");
        }
        self.pending = Some(
            Pending {
                seq: p.seq,
                attempt: p.attempt,
                due: p.due,
                in_flight: true,
                fallback: p.fallback,
            },
        );
        out.push(Action::Connect { seq: p.seq, attempt: p.attempt });
        proof {
            assert(action_views(out@) =~= seq![
                ActionModel::Connect { seq: p.seq, attempt: p.attempt },
            ]);
        }
        out
    }

    fn on_connected(&mut self, now: Instant) -> (r: Vec<Action>)
        ensures
            (*final(self), action_views(r@)) == on_connected(*old(self), now),
    {
        self.connected = true;
        // Whatever brought the link up, the next advert must not be read as a
        // case opening.
        self.last_seen = Some(now);
        self.end_fallback();
        let mut out: Vec<Action> = Vec::new();
        match self.pending {
            Some(p) => if p.in_flight {
                out.push(Action::Connected);
            } else {
                out.push(Action::Cancelled("already_connected"));
            },
            None => {},
        }
        self.pending = None;
        proof {
            assert(action_views(out@) =~= on_connected(*old(self), now).1);
        }
        out
    }

    fn on_disconnected(&mut self, reason: Reason, now: Instant) -> (r: Vec<Action>)
        ensures
            (*final(self), action_views(r@)) == on_disconnected(*old(self), reason, now),
    {
        self.connected = false;
        // The disconnect starts the absence clock. AirPods still out of the
        // case keep advertising, so an advert inside the absence window proves
        // this was not a case opening.
        self.last_seen = Some(now);
        let mut out: Vec<Action> = self.cancel("disconnected");
        match reason {
            Reason::Remote | Reason::Timeout => {
                self.fallback_from = Some(now);
                self.fallback_next = None;
            },
            Reason::Unknown => {},
            _ => {
                self.end_fallback();
            },
        }
        // `Local` means this host ended the link: a decision to keep, not to
        // undo.
        if reason == Reason::Local {
            let ghost first = out@;
            let mut more: Vec<Action> = self.disarm("local_disconnect");
            let ghost second = more@;
            out.append(&mut more);
            proof {
                assert(action_views(out@) =~= action_views(first) + action_views(second));
            }
        }
        out
    }

    fn on_finished(&mut self, seq: u64, outcome: Outcome, now: Instant) -> (r: Vec<Action>)
        requires
            old(self).valid(),
            now + 45 * SECOND <= u128::MAX,
        ensures
            (*final(self), action_views(r@)) == on_finished(*old(self), seq, outcome, now),
    {
        let mut out: Vec<Action> = Vec::new();
        proof {
            assert(action_views(out@) =~= Seq::empty());
        }
        let p: Pending = match self.pending {
            Some(p) => p,
            None => {
                return out;
            },
        };
        if p.seq != seq || !p.in_flight {
            return out;
        }
        let (by_other_means, superseded) = match &outcome {
            Outcome::NotReady(why) => (
                same_text(*why, "connected_by_other_means"),
                same_text(*why, "superseded"),
            ),
            _ => (false, false),
        };
        let is_connected = match &outcome {
            Outcome::Connected => true,
            _ => false,
        };
        if is_connected {
            self.pending = None;
            self.connected = true;
            if p.fallback {
                self.end_fallback();
            }
            out.push(Action::Connected);
            proof {
                assert(action_views(out@) =~= seq![ActionModel::Connected]);
            }
            return out;
        }
        if by_other_means || superseded {
            self.pending = None;
            if p.fallback && by_other_means {
                self.end_fallback();
            }
            if let Outcome::NotReady(why) = outcome {
                out.push(Action::Cancelled(why));
            }
            proof {
                assert(action_views(out@) =~= seq![ActionModel::Cancelled(described(outcome))]);
            }
            return out;
        }
        // A fallback page is one page for one slot: it never retries, because
        // the cadence already decides when to try again.
        if p.fallback {
            self.pending = None;
            out.push(Action::FallbackFailed(describe(&outcome)));
            proof {
                assert(action_views(out@) =~= seq![
                    ActionModel::FallbackFailed(described(outcome)),
                ]);
            }
            return out;
        }
        if p.attempt < MAX_ATTEMPTS {
            let wait: Duration = if p.attempt == 1 {
                5 * SECOND
            } else if p.attempt == 2 {
                15 * SECOND
            } else {
                45 * SECOND
            };
            let attempt: u8 = p.attempt + 1;
            self.pending = Some(
                Pending {
                    seq: p.seq,
                    attempt,
                    due: now + wait,
                    in_flight: false,
                    fallback: p.fallback,
                },
            );
            out.push(Action::Retry { attempt, wait });
            proof {
                assert(action_views(out@) =~= seq![ActionModel::Retry { attempt, wait }]);
            }
            return out;
        }
        self.pending = None;
        let mut why: String = "4 connects did not take: ".to_owned();
        why.append(describe(&outcome).as_str());
        out.push(Action::GaveUp(why));
        proof {
            assert(action_views(out@) =~= seq![gave_up(outcome)]);
        }
        out
    }
}

/// Fold one event into the state and return what to do about it. `now` is the
/// caller's clock.
pub fn decide(s: &mut AutoConnectState, event: Event, now: Instant) -> (r: Vec<Action>)
    requires
        old(s).valid(),
        representable(*old(s), event, now),
    ensures
        final(s).valid(),
        (*final(s), action_views(r@)) == step(*old(s), event, now),
{
    proof {
        reveal(step);
    }
    // A daemon that starts with the AirPods already away has no disconnect to
    // anchor the fallback on. The first event with a clock is that anchor.
    if s.fallback_start && !s.connected {
        s.fallback_from = Some(now);
    }
    s.fallback_start = false;
    match event {
        Event::Seen { rssi } => s.on_seen(rssi, now),
        Event::Tick => s.on_tick(now),
        Event::LocalConnected => s.on_connected(now),
        Event::LocalDisconnected { reason } => s.on_disconnected(reason, now),
        Event::ManualCommand => s.disarm("manual_command"),
        Event::ConnectFinished { seq, outcome } => s.on_finished(seq, outcome, now),
    }
}

/// Page without an advert, if this away period still has a slot for it.
fn fallback_page(s: &mut AutoConnectState, now: Instant) -> (r: Vec<Action>)
    requires
        old(s).seq < u64::MAX,
        now + old(s).fallback_interval <= u128::MAX,
        old(s).fallback_from matches Some(from) ==> from + old(s).fallback_first <= u128::MAX,
    ensures
        (*final(s), action_views(r@)) == fallback_step(*old(s), now),
{
    let mut out: Vec<Action> = Vec::new();
    proof {
        assert(action_views(out@) =~= Seq::empty());
    }
    if !s.enabled || s.connected || s.disarmed || s.rejoin_pending || s.fallback_budget == 0 {
        return out;
    }
    let from: Instant = match s.fallback_from {
        Some(t) => t,
        None => {
            return out;
        },
    };
    let away: Duration = since(now, from);
    if away > s.fallback_budget {
        return out;
    }
    let due: Instant = match s.fallback_next {
        Some(t) => t,
        None => from + s.fallback_first,
    };
    if now < due {
        return out;
    }
    s.seq = s.seq + 1;
    s.fallback_next = Some(now + s.fallback_interval);
    s.pending = Some(Pending { seq: s.seq, attempt: 1, due: now, in_flight: true, fallback: true });
    out.push(Action::FallbackPage { away, next: s.fallback_interval });
    out.push(Action::Connect { seq: s.seq, attempt: 1 });
    proof {
        assert(action_views(out@) =~= fallback_step(*old(s), now).1);
    }
    out
}

fn describe(outcome: &Outcome) -> (r: String)
    ensures
        r@ == described(*outcome),
{
    match outcome {
        Outcome::Connected => "connected".to_owned(),
        Outcome::Busy => "br-connection-busy".to_owned(),
        Outcome::Failed(e) => e.clone(),
        Outcome::NotReady(why) => (*why).to_owned(),
    }
}

// ---------------------------------------------------------------------------
// What the machine promises
// ---------------------------------------------------------------------------

/// Some connect starts.
pub open spec fn pages(actions: Seq<ActionModel>) -> bool {
    exists|i: int| 0 <= i < actions.len() && #[trigger] actions[i] is Connect
}

/// A connect starts only on a tick, with the feature on, nothing connected, no
/// rejoin pending, and no other connect in flight. It is then the one in
/// flight, its attempt number is within the limit, and a retry has a fresh
/// advert behind it.
pub proof fn one_page_at_a_time(s: AutoConnectState, event: Event, now: Instant)
    requires
        s.valid(),
        representable(s, event, now),
        pages(step(s, event, now).1),
    ensures
        event is Tick,
        s.enabled,
        !s.connected,
        !s.rejoin_pending,
        s.pending matches Some(p) ==> !p.in_flight,
        ({
            let q = step(s, event, now).0.pending;
            &&& q is Some && q->0.in_flight && 1 <= q->0.attempt <= MAX_ATTEMPTS
            &&& step(s, event, now).1.last() == (ActionModel::Connect {
                seq: q->0.seq,
                attempt: q->0.attempt,
            })
            &&& q->0.attempt > 1 ==> (s.last_seen matches Some(t) && elapsed(now, t)
                <= ADVERT_FRESH)
        }),
{
    reveal(step);
    let actions = step(s, event, now).1;
    let i = choose|i: int| 0 <= i < actions.len() && #[trigger] actions[i] is Connect;
    assert(actions[i] is Connect);
}

/// One sequence makes at most [`MAX_ATTEMPTS`] connects: within a sequence the
/// attempt number never falls, rises by one at most and only once the connect
/// in flight has failed, and a new sequence has a number never used before.
pub proof fn a_sequence_is_bounded(s: AutoConnectState, event: Event, now: Instant)
    requires
        s.valid(),
        representable(s, event, now),
        s.pending matches Some(p) ==> p.seq <= s.seq,
    ensures
        step(s, event, now).0.valid(),
        step(s, event, now).0.seq >= s.seq,
        step(s, event, now).0.pending matches Some(q) ==> {
            &&& q.seq <= step(s, event, now).0.seq
            &&& match s.pending {
                Some(p) => q.seq == p.seq && p.attempt <= q.attempt <= p.attempt + 1 && (q.attempt
                    > p.attempt ==> p.in_flight && !q.in_flight),
                None => q.seq == s.seq + 1 && q.attempt == 1,
            }
        },
{
    reveal(step);
}

/// A disarmed machine pages nothing, and only an advert after an absence arms
/// it again. Disarming leaves no connect behind.
pub proof fn disarmed_until_an_absence(s: AutoConnectState, event: Event, now: Instant)
    requires
        s.valid(),
        representable(s, event, now),
        s.disarmed ==> s.pending is None,
    ensures
        s.disarmed ==> !pages(step(s, event, now).1),
        s.disarmed && !step(s, event, now).0.disarmed ==> event is Seen && s.absent(now),
        step(s, event, now).0.disarmed ==> step(s, event, now).0.pending is None,
        event is ManualCommand ==> step(s, event, now).0.disarmed,
        event == (Event::LocalDisconnected { reason: Reason::Local }) ==> step(
            s,
            event,
            now,
        ).0.disarmed && step(s, event, now).0.fallback_from is None,
{
    reveal(step);
}

/// With the feature off nothing is paged and nothing is scheduled.
pub proof fn disabled_pages_nothing(s: AutoConnectState, event: Event, now: Instant)
    requires
        s.valid(),
        representable(s, event, now),
        !s.enabled,
    ensures
        !pages(step(s, event, now).1),
        s.pending is None ==> step(s, event, now).0.pending is None,
        event is Seen ==> step(s, event, now).1 == Seq::<ActionModel>::empty(),
        !step(s, event, now).0.enabled,
{
    reveal(step);
}

/// One outing is one episode: an advert that does not follow an absence starts
/// nothing and, unless it is too weak, says nothing, and one that is too weak
/// changes nothing but the anchor.
pub proof fn one_episode_per_outing(s: AutoConnectState, rssi: Option<i16>, now: Instant)
    ensures
        !s.absent(now) ==> {
            let after = step(s, Event::Seen { rssi }, now).0;
            &&& after.seq == s.seq
            &&& after.disarmed == s.disarmed
            &&& after.connected == s.connected
            &&& !(rssi matches Some(r) && r < s.min_rssi) ==> step(
                s,
                Event::Seen { rssi },
                now,
            ).1 == Seq::<ActionModel>::empty()
        },
        !s.absent(now) || s.pending is Some ==> step(s, Event::Seen { rssi }, now).0.pending
            == s.pending,
        (rssi matches Some(r) && r < s.min_rssi) ==> step(s, Event::Seen { rssi }, now).0
            == s.anchored(now),
{
    reveal(step);
}

/// A result that no connect in flight is waiting for changes nothing but the
/// anchor, and says nothing.
pub proof fn a_stale_result_changes_nothing(
    s: AutoConnectState,
    seq: u64,
    outcome: Outcome,
    now: Instant,
)
    requires
        !(s.pending matches Some(p) && p.seq == seq && p.in_flight),
    ensures
        step(s, Event::ConnectFinished { seq, outcome }, now) == (
            s.anchored(now),
            Seq::<ActionModel>::empty(),
        ),
        s.anchored(now).pending == s.pending,
        s.anchored(now).disarmed == s.disarmed,
        s.anchored(now).enabled == s.enabled,
        s.anchored(now).connected == s.connected,
{
    reveal(step);
}

/// A page without an advert comes only inside the budget of an away period
/// that has one, while armed and with nothing else under way, and at most once
/// per interval.
pub proof fn fallback_stays_in_its_budget(s: AutoConnectState, now: Instant, i: int)
    requires
        representable(s, Event::Tick, now),
        0 <= i < step(s, Event::Tick, now).1.len(),
        step(s, Event::Tick, now).1[i] is FallbackPage,
    ensures
        s.pending is None,
        !s.disarmed,
        !s.connected,
        !s.rejoin_pending,
        s.enabled,
        s.fallback_budget > 0,
        s.anchored(now).fallback_from matches Some(from) && elapsed(now, from)
            <= s.fallback_budget && (s.fallback_next matches Some(t) ==> now >= t),
        step(s, Event::Tick, now).0.fallback_next == Some((now + s.fallback_interval) as u128),
{
    reveal(step);
}

/// The state after a run of events, and all that was done on the way.
pub open spec fn run(s: AutoConnectState, events: Seq<(Event, Instant)>) -> Step
    decreases events.len(),
{
    if events.len() == 0 {
        (s, Seq::empty())
    } else {
        let (before, done) = run(s, events.drop_last());
        let (after, actions) = step(before, events.last().0, events.last().1);
        (after, done + actions)
    }
}

/// Every deadline and every number that the run gives out can be represented.
pub open spec fn run_representable(s: AutoConnectState, events: Seq<(Event, Instant)>) -> bool
    decreases events.len(),
{
    events.len() == 0 || (run_representable(s, events.drop_last()) && representable(
        run(s, events.drop_last()).0,
        events.last().0,
        events.last().1,
    ))
}

/// How many connects were started under a sequence number.
pub open spec fn connects(actions: Seq<ActionModel>, seq: u64) -> nat
    decreases actions.len(),
{
    if actions.len() == 0 {
        0
    } else {
        connects(actions.drop_last(), seq) + (if starts(actions.last(), seq) {
            1nat
        } else {
            0
        })
    }
}

/// The action starts a connect under a sequence number.
pub open spec fn starts(action: ActionModel, seq: u64) -> bool {
    action matches ActionModel::Connect { seq: q, .. } && q == seq
}

proof fn lemma_connects_add(a: Seq<ActionModel>, b: Seq<ActionModel>, seq: u64)
    ensures
        connects(a + b, seq) == connects(a, seq) + connects(b, seq),
    decreases b.len(),
{
    if b.len() == 0 {
        assert(a + b =~= a);
    } else {
        assert((a + b).drop_last() =~= a + b.drop_last());
        lemma_connects_add(a, b.drop_last(), seq);
    }
}

proof fn lemma_no_connects(actions: Seq<ActionModel>, seq: u64)
    requires
        forall|i: int| 0 <= i < actions.len() ==> !starts(#[trigger] actions[i], seq),
    ensures
        connects(actions, seq) == 0,
    decreases actions.len(),
{
    if actions.len() > 0 {
        lemma_no_connects(actions.drop_last(), seq);
    }
}

/// A step starts one connect where a page goes into flight, and none else.
proof fn lemma_step_connects(s: AutoConnectState, event: Event, now: Instant, seq: u64)
    requires
        s.valid(),
        representable(s, event, now),
    ensures
        connects(step(s, event, now).1, seq) == (if step(s, event, now).0.pending matches Some(q)
            && q.seq == seq && q.in_flight && !(s.pending matches Some(p) && p.in_flight) {
            1nat
        } else {
            0
        }),
{
    reveal(step);
    let (after, actions) = step(s, event, now);
    if after.pending matches Some(q) && q.seq == seq && q.in_flight && !(s.pending matches Some(p)
        && p.in_flight) {
        assert(starts(actions.last(), seq));
        lemma_no_connects(actions.drop_last(), seq);
    } else {
        lemma_no_connects(actions, seq);
    }
}

/// A pending sequence goes on with the connects it has shown, and one more
/// where a page goes into flight; a new one has shown none before.
proof fn lemma_step_shown(s: AutoConnectState, event: Event, now: Instant)
    requires
        s.valid(),
        representable(s, event, now),
    ensures
        step(s, event, now).0.pending matches Some(q) ==> step(s, event, now).0.attempt_shown()
            == s.attempt_shown() + (if q.in_flight && !(s.pending matches Some(p) && p.in_flight) {
            1int
        } else {
            0
        }),
{
    reveal(step);
}

proof fn lemma_run_counts(s: AutoConnectState, events: Seq<(Event, Instant)>)
    requires
        s.pending is None,
        run_representable(s, events),
    ensures
        ({
            let (after, actions) = run(s, events);
            &&& after.valid()
            &&& after.pending matches Some(p) ==> p.seq <= after.seq && after.attempt_shown()
                == connects(actions, p.seq)
            &&& forall|q: u64| q > after.seq ==> #[trigger] connects(actions, q) == 0
        }),
    decreases events.len(),
{
    if events.len() > 0 {
        let (before, done) = run(s, events.drop_last());
        let (event, now) = events.last();
        lemma_run_counts(s, events.drop_last());
        let (after, actions) = step(before, event, now);
        a_sequence_is_bounded(before, event, now);
        lemma_step_shown(before, event, now);
        if let Some(p) = after.pending {
            lemma_step_connects(before, event, now, p.seq);
            lemma_connects_add(done, actions, p.seq);
        }
        assert forall|q: u64| q > after.seq implies #[trigger] connects(done + actions, q) == 0 by {
            lemma_step_connects(before, event, now, q);
            lemma_connects_add(done, actions, q);
        }
    }
}

/// Whatever happened since the start, the attempt shown is the number of
/// connects started in the pending sequence: all of them while a page is in
/// flight, one less than the attempt's number while it waits, and none when
/// nothing is pending. It never exceeds [`MAX_ATTEMPTS`].
pub proof fn the_attempt_shown_counts_connects(
    config: AutoconnectConfig,
    events: Seq<(Event, Instant)>,
)
    requires
        run_representable(AutoConnectState::fresh(config), events),
    ensures
        ({
            let (s, actions) = run(AutoConnectState::fresh(config), events);
            &&& s.valid()
            &&& 0 <= s.attempt_shown() <= MAX_ATTEMPTS
            &&& s.pending is None ==> s.attempt_shown() == 0
            &&& s.pending matches Some(p) ==> s.attempt_shown() == connects(actions, p.seq)
                && p.attempt == connects(actions, p.seq) + (if p.in_flight {
                0int
            } else {
                1
            })
        }),
{
    lemma_run_counts(AutoConnectState::fresh(config), events);
}

// ---------------------------------------------------------------------------
// The scanner's bookkeeping
// ---------------------------------------------------------------------------

/// Which devices the scanner follows, and the latest RSSI of each address.
#[derive(Debug, Clone)]
pub struct Scanner {
    watched: Vec<Address>,
    rssi: Vec<(Address, i16)>,
}

/// The RSSI a table holds for an address; the table holds each address once.
pub open spec fn rssi_in(table: Seq<(Address, i16)>, address: Address) -> Option<i16>
    decreases table.len(),
{
    if table.len() == 0 {
        None
    } else if table.last().0 == address {
        Some(table.last().1)
    } else {
        rssi_in(table.drop_last(), address)
    }
}

impl Scanner {
    /// The devices followed.
    pub closed spec fn watching(self) -> Set<Address> {
        self.watched@.to_set()
    }

    /// How many devices are followed.
    pub closed spec fn count(self) -> nat {
        self.watched@.len()
    }

    /// The latest RSSI of an address.
    pub closed spec fn strength(self, address: Address) -> Option<i16> {
        rssi_in(self.rssi@, address)
    }

    /// No device is followed twice, and never more than [`WATCHED_CAP`].
    pub closed spec fn wf(self) -> bool {
        self.watched@.no_duplicates() && self.watched@.len() <= WATCHED_CAP
    }

    /// Nothing followed yet.
    pub fn new() -> (r: Self)
        ensures
            r.wf(),
            r.count() == 0,
            forall|a: Address| !#[trigger] r.watching().contains(a),
            forall|a: Address| #[trigger] r.strength(a) is None,
    {
        Scanner { watched: Vec::new(), rssi: Vec::new() }
    }

    fn position(&self, address: Address) -> (r: Option<usize>)
        ensures
            match r {
                Some(i) => i < self.watched@.len() && self.watched@[i as int] == address,
                None => !self.watched@.contains(address),
            },
    {
        let mut i: usize = 0;
        while i < self.watched.len()
            invariant
                i <= self.watched.len(),
                forall|k: int| 0 <= k < i ==> self.watched@[k] != address,
            decreases self.watched.len() - i,
        {
            if self.watched[i] == address {
                return Some(i);
            }
            i = i + 1;
        }
        None
    }

    /// A device appeared. `true` means: follow it, which takes a slot. A
    /// device already followed, or one beyond the cap, is left alone.
    pub fn added(&mut self, address: Address) -> (r: bool)
        requires
            old(self).wf(),
        ensures
            final(self).wf(),
            r == (old(self).count() < WATCHED_CAP && !old(self).watching().contains(address)),
            final(self).count() == old(self).count() + (if r { 1int } else { 0int }),
            final(self).watching() == (if r {
                old(self).watching().insert(address)
            } else {
                old(self).watching()
            }),
            forall|a: Address| #[trigger] final(self).strength(a) == old(self).strength(a),
    {
        proof {
            assert(self.watched@.contains(address) == self.watching().contains(address));
        }
        if self.watched.len() >= WATCHED_CAP {
            return false;
        }
        if self.position(address).is_some() {
            return false;
        }
        let ghost before = self.watched@;
        self.watched.push(address);
        proof {
            assert(self.watched@ == before.push(address));
            assert forall|a: Address| before.push(address).to_set().contains(a)
                == before.to_set().insert(address).contains(a) by {
                if before.push(address).contains(a) {
                    let k = choose|k: int|
                        0 <= k < before.push(address).len() && before.push(address)[k] == a;
                    if k < before.len() {
                        assert(before[k] == a);
                    }
                }
                if before.contains(a) {
                    let k = choose|k: int| 0 <= k < before.len() && before[k] == a;
                    assert(before.push(address)[k] == a);
                }
                if a == address {
                    assert(before.push(address)[before.len() as int] == a);
                }
            }
            assert(self.watching() =~= old(self).watching().insert(address));
        }
        true
    }

    /// A device went away: its slot and its RSSI go with it.
    pub fn removed(&mut self, address: Address)
        requires
            old(self).wf(),
        ensures
            final(self).wf(),
            final(self).watching() == old(self).watching().remove(address),
            final(self).count() == old(self).count() - (if old(self).watching().contains(address) {
                1int
            } else {
                0int
            }),
            forall|a: Address| #[trigger]
                final(self).strength(a) == (if a == address {
                    None
                } else {
                    old(self).strength(a)
                }),
    {
        let ghost before = self.watched@;
        match self.position(address) {
            Some(i) => {
                self.watched.remove(i);
                proof {
                    assert(self.watched@ == before.remove(i as int));
                    assert(before[i as int] == address);
                    assert forall|a: Address| before.remove(i as int).to_set().contains(a)
                        == before.to_set().remove(address).contains(a) by {
                        if before.remove(i as int).contains(a) {
                            let k = choose|k: int|
                                0 <= k < before.len() - 1 && before.remove(i as int)[k] == a;
                            if k < i {
                                assert(before[k] == a);
                            } else {
                                assert(before[k + 1] == a);
                            }
                        }
                        if before.contains(a) && a != address {
                            let k = choose|k: int| 0 <= k < before.len() && before[k] == a;
                            if k < i {
                                assert(before.remove(i as int)[k] == a);
                            } else {
                                assert(before.remove(i as int)[k - 1] == a);
                            }
                        }
                    }
                    assert(self.watching() =~= old(self).watching().remove(address));
                    assert(before.contains(address));
                }
            },
            None => {
                proof {
                    assert(self.watching() =~= old(self).watching().remove(address));
                }
            },
        }
        self.forget(address);
    }

    fn forget(&mut self, address: Address)
        ensures
            final(self).watched@ == old(self).watched@,
            forall|a: Address| #[trigger]
                final(self).strength(a) == (if a == address {
                    None
                } else {
                    old(self).strength(a)
                }),
    {
        let mut kept: Vec<(Address, i16)> = Vec::new();
        let mut i: usize = 0;
        let ghost table = self.rssi@;
        while i < self.rssi.len()
            invariant
                i <= self.rssi.len(),
                table == self.rssi@,
                forall|a: Address| #[trigger]
                    rssi_in(kept@, a) == (if a == address {
                        None
                    } else {
                        rssi_in(table.take(i as int), a)
                    }),
            decreases self.rssi.len() - i,
        {
            let entry = self.rssi[i];
            let ghost before = kept@;
            if entry.0 != address {
                kept.push(entry);
            }
            proof {
                let next = table.take(i as int + 1);
                assert(next.drop_last() =~= table.take(i as int));
                assert(next.last() == entry);
                assert forall|a: Address| #[trigger]
                    rssi_in(kept@, a) == (if a == address {
                        None
                    } else {
                        rssi_in(next, a)
                    }) by {
                    assert(rssi_in(before, a) == (if a == address {
                        None
                    } else {
                        rssi_in(table.take(i as int), a)
                    }));
                    if entry.0 != address {
                        assert(kept@.drop_last() =~= before);
                        assert(kept@.last() == entry);
                    }
                }
            }
            i = i + 1;
        }
        proof {
            assert(table.take(table.len() as int) =~= table);
        }
        self.rssi = kept;
    }

    /// The signal strength of an address was reported. It arrives as its own
    /// property change, usually before the advert data.
    pub fn heard(&mut self, address: Address, value: i16)
        requires
            old(self).wf(),
        ensures
            final(self).wf(),
            final(self).watching() == old(self).watching(),
            final(self).count() == old(self).count(),
            forall|a: Address| #[trigger]
                final(self).strength(a) == (if a == address {
                    Some(value)
                } else {
                    old(self).strength(a)
                }),
    {
        self.forget(address);
        let ghost before = *self;
        self.rssi.push((address, value));
        proof {
            assert(self.rssi@.drop_last() =~= before.rssi@);
            assert(self.rssi@.last() == (address, value));
            assert forall|a: Address| #[trigger]
                self.strength(a) == (if a == address {
                    Some(value)
                } else {
                    old(self).strength(a)
                }) by {
                assert(before.strength(a) == rssi_in(before.rssi@, a));
            }
        }
    }

    fn latest(&self, address: Address) -> (r: Option<i16>)
        ensures
            r == self.strength(address),
    {
        let mut i: usize = self.rssi.len();
        proof {
            assert(self.rssi@.take(i as int) =~= self.rssi@);
        }
        while i > 0
            invariant
                i <= self.rssi.len(),
                rssi_in(self.rssi@.take(i as int), address) == rssi_in(self.rssi@, address),
            decreases i,
        {
            let entry = self.rssi[i - 1];
            proof {
                let here = self.rssi@.take(i as int);
                assert(here.last() == entry);
                assert(here.drop_last() =~= self.rssi@.take(i as int - 1));
            }
            if entry.0 == address {
                return Some(entry.1);
            }
            i = i - 1;
        }
        None
    }

    /// Manufacturer data of an address changed: `data` is Apple's blob, if
    /// there is one. A qualifying advert is a sighting unless it is known to
    /// be too weak; an unknown RSSI is accepted, since the advert itself is
    /// the evidence.
    pub fn advert(
        &self,
        address: Address,
        data: Option<&[u8]>,
        model: [u8; 2],
        min_rssi: i16,
    ) -> (r: Option<Sighting>)
        requires
            self.wf(),
        ensures
            r == (if (data matches Some(d) && qualifying(d@, model@)) && !(self.strength(
                address,
            ) matches Some(v) && v < min_rssi) {
                Some(Sighting { address, rssi: self.strength(address) })
            } else {
                None
            }),
    {
        let qualified = match data {
            Some(d) => qualifies(d, model),
            None => false,
        };
        if !qualified {
            return None;
        }
        let rssi = self.latest(address);
        if let Some(v) = rssi {
            if v < min_rssi {
                return None;
            }
        }
        Some(Sighting { address, rssi })
    }
}

} // verus!
