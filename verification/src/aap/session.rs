//! The connection state machine.
//!
//! [`Supervisor`] holds everything that one AAP session remembers and decides.
//! It reads no clock, opens no socket and calls nothing outside: link events,
//! packets, commands and clock readings go in, and what is to be done comes
//! out as a list of [`Effect`]s, in order. Dialing is guarded because an L2CAP
//! connect can make the kernel establish a Bluetooth link.
use crate::aap::codec::{self, FeaturesVariant, Packet, PacketModel};
use crate::aap::opcode;
use crate::address::Address;
use crate::audio_route::RouteMode;
use crate::autoconnect::{self, AutoConnectState};
use crate::clock::{elapsed, since, Duration, Instant, MILLISECOND, SECOND};
use crate::ear_media::{self, EarMediaModel, EarMediaState};
use crate::handoff::{self, HandoffModel, HandoffState};
use crate::mpris::{MprisCommand, MprisModel, PlaybackReading};
use crate::rejoin;
use crate::state::{EarState, LinkReason, Snapshot};
use crate::store::{is_same_activity, same_activity, LinkActivity, Update};
use crate::text::{hex_digit_lower, push_hex_digit, same_text};
use vstd::prelude::*;
use vstd::string::*;

pub mod command;
pub mod laws;
pub mod link;
pub mod opening;
pub mod tick;

verus! {

/// Settle time after `Connected=true` before dialing the PSM.
pub const SETTLE: Duration = 800 * MILLISECOND;

/// A primary bud address change this recent when the link drops makes the
/// drop a bud role switch. The address report can move to the other bud a few
/// seconds before the AirPods reset this host's link, and the same switch can
/// instead end as a supervision timeout up to about 20 s later.
pub const BUD_SWITCH_WINDOW: Duration = 15 * SECOND;

/// How long to wait for the accessory to answer the handshake before giving
/// up on the socket. Nothing sent before this ack is acted on.
pub const HANDSHAKE_ACK_WAIT: Duration = 3 * SECOND;

/// How long to wait for the set-features ack. Advisory: some firmware stays
/// silent here, so a timeout only logs and the sequence continues.
pub const FEATURES_ACK_WAIT: Duration = 2 * SECOND;

/// Give up on a `connect()` after this long.
pub const CONNECT_TIMEOUT: Duration = 5 * SECOND;

/// Give up on an L2CAP `send()` after this long; a stalled peer must not
/// freeze the loop.
pub const SEND_TIMEOUT: Duration = 1500 * MILLISECOND;

/// No battery packet within this long after the handshake is suspicious.
pub const BATTERY_WATCHDOG: Duration = 10 * SECOND;

/// How many times to re-send request-notifications before recycling.
pub const MAX_NOTIF_RESENDS: u8 = 2;

/// No packet at all for this long makes the link suspect. AirPods only speak
/// when something changes, so silence alone proves nothing: the idle watchdog
/// sends a probe first and only recycles if that probe goes unanswered.
pub const IDLE_TIMEOUT: Duration = 300 * SECOND;

/// How long to wait for any packet after the idle probe before recycling.
pub const IDLE_PROBE_GRACE: Duration = 15 * SECOND;

/// State machine tick.
pub const TICK: Duration = 250 * MILLISECOND;

/// How long after a setting write to wait before reopening the link to read
/// it back. A burst of writes from a slider settles into one reopen.
pub const VERIFY_DEBOUNCE: Duration = 1500 * MILLISECOND;

/// Whole budget for a readback, measured from the write. Past it the write
/// stands but is published as unverified.
pub const VERIFY_BUDGET: Duration = 10 * SECOND;

/// The accessory dumps its settings once per link, shortly after the
/// set-features ack. The dump ends at the first battery packet; this is how
/// long to wait for one before judging the dump complete anyway.
pub const READBACK_WINDOW: Duration = 2000 * MILLISECOND;

/// Receive buffer; AAP messages are tiny but the L2CAP MTU can be larger.
pub const RECV_BUF: usize = 2048;

/// Longest wait for one BlueZ audio profile connect.
pub const PROFILE_TIMEOUT: Duration = 20 * SECOND;

/// Longest wait for one `Device1.Connect`. A timeout is not retried: the
/// request may still complete.
pub const REJOIN_CONNECT_TIMEOUT: Duration = 30 * SECOND;

/// Said of a command that needs the AAP link while there is none.
pub const NO_LINK: &'static str = "device is not connected: no AAP link is open";

/// The longest of the fixed deadlines that an event can set.
pub const LONGEST_DEADLINE: Duration = 45 * SECOND;

/// Knobs read from the environment at startup.
#[derive(Debug, Clone, Copy, PartialEq, Eq, Structural)]
pub struct SessionConfig {
    /// PSM to dial. Always 0x1001 in practice.
    pub psm: u16,
    /// Set-features variant forced by the environment. `None` leaves the
    /// choice to the automatic fallback in [`pick_variant`].
    pub features: Option<FeaturesVariant>,
    /// Use the raw libc socket instead of bluer's.
    pub raw_socket: bool,
}

impl Default for SessionConfig {
    fn default() -> (r: Self)
        ensures
            r == (SessionConfig { psm: opcode::AAP_PSM, features: None, raw_socket: false }),
    {
        SessionConfig { psm: opcode::AAP_PSM, features: None, raw_socket: false }
    }
}

impl SessionConfig {
    /// Honour `AURISD_FEATURES` (`alt` or `ff`) and `AURISD_RAW_SOCKET` (`1`),
    /// given as the values of those variables.
    pub fn from_values(features: Option<&str>, raw_socket: Option<&str>) -> (r: Self)
        ensures
            r.psm == opcode::AAP_PSM,
            r.features == match features {
                Some(v) => if v@ == "alt"@ {
                    Some(FeaturesVariant::Alt)
                } else if v@ == "ff"@ {
                    Some(FeaturesVariant::Ff)
                } else {
                    None
                },
                None => None,
            },
            r.raw_socket == (raw_socket matches Some(v) && v@ == "1"@),
    {
        let features = match features {
            Some(v) => if same_text(v, "alt") {
                Some(FeaturesVariant::Alt)
            } else if same_text(v, "ff") {
                Some(FeaturesVariant::Ff)
            } else {
                None
            },
            None => None,
        };
        let raw_socket = match raw_socket {
            Some(v) => same_text(v, "1"),
            None => false,
        };
        SessionConfig { psm: opcode::AAP_PSM, features, raw_socket }
    }
}

/// The variant of one dial: what the environment forces, else what is already
/// proven on this device, else the two in turn.
pub open spec fn variant_for(
    forced: Option<FeaturesVariant>,
    locked: Option<FeaturesVariant>,
    attempt: u32,
) -> FeaturesVariant {
    match forced {
        Some(v) => v,
        None => match locked {
            Some(v) => v,
            None => if attempt % 2 == 0 {
                FeaturesVariant::D7
            } else {
                FeaturesVariant::Alt
            },
        },
    }
}

/// Choose the set-features variant for a dial.
///
/// The environment wins; then a variant already proven on this device; then
/// alternation, so a session that ends without a single battery packet is
/// followed by a dial on the other variant.
pub fn pick_variant(
    forced: Option<FeaturesVariant>,
    locked: Option<FeaturesVariant>,
    attempt: u32,
) -> (r: FeaturesVariant)
    ensures
        r == variant_for(forced, locked, attempt),
{
    match (forced, locked) {
        (Some(v), _) => v,
        (None, Some(v)) => v,
        (None, None) => {
            if attempt % 2 == 0 {
                FeaturesVariant::D7
            } else {
                FeaturesVariant::Alt
            }
        },
    }
}

/// Until a variant is forced or proven, one dial is followed by a dial on the
/// other variant.
pub proof fn dials_alternate(attempt: u32)
    requires
        attempt < u32::MAX,
    ensures
        variant_for(None, None, attempt) != variant_for(None, None, (attempt + 1) as u32),
{
}

/// Which acknowledgement the opening sequence is waiting for.
#[derive(Debug, Clone, Copy, PartialEq, Eq, Structural)]
pub enum Awaited {
    /// `01 00 04 00 ...`, the answer to the handshake.
    Handshake,
    /// `04 00 04 00 2b 00 ...`, the answer to set-features.
    Features,
}

/// Whether a datagram is the acknowledgement that is waited for.
pub fn is_awaited(want: Awaited, datagram: &[u8]) -> (r: bool)
    ensures
        r == (codec::packet_of(datagram@) == Ok::<PacketModel, codec::DecodeError>(
            match want {
                Awaited::Handshake => PacketModel::HandshakeAck,
                Awaited::Features => PacketModel::FeaturesAck,
            },
        )),
{
    match codec::decode(datagram) {
        Ok(Packet::HandshakeAck) => want == Awaited::Handshake,
        Ok(Packet::FeaturesAck) => want == Awaited::Features,
        _ => false,
    }
}

/// Why the sole permitted dial in the current state was armed.
#[derive(Debug, Clone, Copy, PartialEq, Eq, Structural)]
pub enum DialKind {
    /// One attempt following an observed local `Connected: false -> true`.
    Automatic,
    /// One attempt explicitly rearmed by a user command.
    Manual,
}

/// What the idle watchdog wants done, given the clock and the two timestamps.
#[derive(Debug, Clone, Copy, PartialEq, Eq, Structural)]
pub enum IdleAction {
    /// Nothing to do.
    Nothing,
    /// Silence has gone on too long; poke the accessory.
    Probe,
    /// The probe was not answered; the link is dead.
    Recycle,
}

/// The idle watchdog. An outstanding probe is cleared by anything heard since
/// it went out; without one, only a long silence asks for a probe.
pub open spec fn idle_rule(
    now: Instant,
    last_packet: Option<Instant>,
    probe_at: Option<Instant>,
) -> IdleAction {
    match probe_at {
        Some(sent) => if last_packet matches Some(t) && t > sent {
            IdleAction::Nothing
        } else if elapsed(now, sent) >= IDLE_PROBE_GRACE {
            IdleAction::Recycle
        } else {
            IdleAction::Nothing
        },
        None => if last_packet matches Some(t) && elapsed(now, t) >= IDLE_TIMEOUT {
            IdleAction::Probe
        } else {
            IdleAction::Nothing
        },
    }
}

/// What the idle watchdog wants done.
pub fn idle_decision(
    now: Instant,
    last_packet: Option<Instant>,
    probe_at: Option<Instant>,
) -> (r: IdleAction)
    ensures
        r == idle_rule(now, last_packet, probe_at),
{
    match probe_at {
        Some(sent) => {
            let heard = match last_packet {
                Some(t) => t > sent,
                None => false,
            };
            if heard {
                IdleAction::Nothing
            } else if since(now, sent) >= IDLE_PROBE_GRACE {
                IdleAction::Recycle
            } else {
                IdleAction::Nothing
            }
        },
        None => {
            let silent = match last_packet {
                Some(t) => since(now, t) >= IDLE_TIMEOUT,
                None => false,
            };
            if silent {
                IdleAction::Probe
            } else {
                IdleAction::Nothing
            }
        },
    }
}

/// A silent link is probed before it is given up: giving up needs a probe that
/// was out for the whole grace period with nothing heard after it.
pub proof fn a_link_is_probed_before_it_is_given_up(
    now: Instant,
    last_packet: Option<Instant>,
    probe_at: Option<Instant>,
)
    ensures
        idle_rule(now, last_packet, probe_at) == IdleAction::Recycle ==> (probe_at matches Some(
            sent,
        ) && elapsed(now, sent) >= IDLE_PROBE_GRACE && !(last_packet matches Some(t) && t > sent)),
{
}

/// The AirPods are put away: both buds report the case. One bud in the case
/// while the other is in an ear or merely out of it is a bud swap or a single
/// bud charging, and the AirPods stay in use, so it must not count.
/// `EarState::Unknown` is not the case either.
pub fn both_buds_in_case(primary: EarState, secondary: EarState) -> (r: bool)
    ensures
        r == (primary == EarState::Case && secondary == EarState::Case),
{
    primary == EarState::Case && secondary == EarState::Case
}

/// Why settings and the name of this model cannot be written.
pub open spec fn model_refusal(model: Seq<char>) -> Option<Seq<char>> {
    if model == "201B"@ {
        None
    } else if model == ""@ {
        Some("device model is unknown; settings and rename require AirPods 4 (ANC) model 201B"@)
    } else {
        Some(
            "unsupported device model "@ + model
                + "; settings and rename require AirPods 4 (ANC) model 201B"@,
        )
    }
}

/// Why settings and the name of the current accessory cannot be written, if
/// they cannot.
pub fn settings_model_error(snapshot: &Snapshot) -> (r: Option<String>)
    ensures
        match r {
            Some(e) => model_refusal(snapshot.device.model_id@) == Some(e@),
            None => model_refusal(snapshot.device.model_id@) is None,
        },
{
    let model: &str = snapshot.device.model_id.as_str();
    if same_text(model, "201B") {
        return None;
    }
    if same_text(model, "") {
        return Some(
            "device model is unknown; settings and rename require AirPods 4 (ANC) model 201B".to_owned(),
        );
    }
    let mut text: String = "unsupported device model ".to_owned();
    text.append(model);
    text.append("; settings and rename require AirPods 4 (ANC) model 201B");
    Some(text)
}

/// The bytes in lower-case hexadecimal, two digits each, separated by spaces.
pub open spec fn hex_text(bytes: Seq<u8>) -> Seq<char>
    decreases bytes.len(),
{
    if bytes.len() == 0 {
        Seq::empty()
    } else {
        let head = if bytes.len() == 1 {
            Seq::empty()
        } else {
            hex_text(bytes.drop_last()).push(' ')
        };
        head.push(hex_digit_lower(bytes.last() as int / 16)).push(
            hex_digit_lower(bytes.last() as int % 16),
        )
    }
}

/// Space-separated lower-case hex, for logging raw AAP bytes.
pub fn hex_bytes(bytes: &[u8]) -> (r: String)
    ensures
        r@ == hex_text(bytes@),
{
    let mut out: String = String::new();
    let mut i: usize = 0;
    while i < bytes.len()
        invariant
            i <= bytes@.len(),
            out@ == hex_text(bytes@.take(i as int)),
        decreases bytes@.len() - i,
    {
        proof {
            let next = bytes@.take(i + 1);
            assert(next.drop_last() =~= bytes@.take(i as int));
            assert(next.last() == bytes@[i as int]);
        }
        if i > 0 {
            out.push(' ');
        }
        push_hex_digit(&mut out, bytes[i] / 16, false);
        push_hex_digit(&mut out, bytes[i] % 16, false);
        i += 1;
    }
    proof {
        assert(bytes@.take(i as int) =~= bytes@);
    }
    out
}

/// Why a queued command is no longer to be carried out.
pub open spec fn staleness(
    closed: bool,
    now: Instant,
    deadline: Instant,
    same_context: bool,
) -> Option<Seq<char>> {
    if closed {
        Some("request client disconnected"@)
    } else if now >= deadline {
        Some("request expired before execution"@)
    } else if !same_context {
        Some("request context changed before execution"@)
    } else {
        None
    }
}

/// Whether a queued command may still be carried out: its client is there, its
/// deadline has not passed, and the link it was meant for has not changed.
pub fn command_is_current(
    closed: bool,
    now: Instant,
    deadline: Instant,
    same_context: bool,
) -> (r: Result<(), &'static str>)
    ensures
        match r {
            Ok(()) => staleness(closed, now, deadline, same_context) is None,
            Err(e) => staleness(closed, now, deadline, same_context) == Some(e@),
        },
{
    if closed {
        return Err("request client disconnected");
    }
    if now >= deadline {
        return Err("request expired before execution");
    }
    if !same_context {
        return Err("request context changed before execution");
    }
    Ok(())
}

// ---------------------------------------------------------------------------
// Effects and the state as mathematical values
// ---------------------------------------------------------------------------

/// The clocks at one moment.
#[derive(Debug, Clone, PartialEq, Eq)]
pub struct Moment {
    /// The monotonic clock.
    pub now: Instant,
    /// UTC, written out.
    pub utc: String,
    /// Local time, written out.
    pub local: String,
}

/// Something to be done outside, in the order in which it was decided.
#[derive(Debug, Clone, PartialEq, Eq)]
pub enum Effect {
    /// Change the published state.
    Publish(Update),
    /// The published handoff section may have changed.
    PublishHandoff,
    /// Close the AAP socket, if one is open.
    CloseSocket,
    /// A request to the media players.
    Mpris(MprisCommand),
    /// Point the local card at the AirPods or away from them.
    Route {
        /// The AirPods.
        device: Address,
        /// Which way.
        mode: RouteMode,
    },
    /// Stop driving the local card.
    CancelRoute,
    /// Call `Device1.Connect` once because the AirPods appeared nearby.
    Page {
        /// Sequence to report back with.
        seq: u64,
        /// 1-based attempt number.
        attempt: u8,
        /// Local adapter.
        adapter: Address,
        /// The AirPods.
        device: Address,
    },
    /// That call is not made; report this back as its outcome.
    PageRefused {
        /// Sequence to report back with.
        seq: u64,
        /// Why not.
        why: &'static str,
    },
    /// The resolved in-ear state is to be handed to [`Supervisor::on_ear`].
    ResolveEar,
    /// A new local link begins: reports of the previous one say nothing.
    LinkSessionStarted,
    /// The A2DP stream stayed idle after a take-over.
    StreamNotStarted,
}

/// An effect with its texts read as sequences.
#[verifier::ext_equal]
pub enum EffectModel {
    /// See [`Effect::Publish`].
    Publish(Update),
    /// See [`Effect::PublishHandoff`].
    PublishHandoff,
    /// See [`Effect::CloseSocket`].
    CloseSocket,
    /// See [`Effect::Mpris`].
    Mpris(MprisModel),
    /// See [`Effect::Route`].
    Route {
        /// The AirPods.
        device: Address,
        /// Which way.
        mode: RouteMode,
    },
    /// See [`Effect::CancelRoute`].
    CancelRoute,
    /// See [`Effect::Page`].
    Page {
        /// Sequence.
        seq: u64,
        /// 1-based attempt number.
        attempt: u8,
        /// Local adapter.
        adapter: Address,
        /// The AirPods.
        device: Address,
    },
    /// See [`Effect::PageRefused`].
    PageRefused {
        /// Sequence.
        seq: u64,
        /// Why not.
        why: Seq<char>,
    },
    /// See [`Effect::ResolveEar`].
    ResolveEar,
    /// See [`Effect::LinkSessionStarted`].
    LinkSessionStarted,
    /// See [`Effect::StreamNotStarted`].
    StreamNotStarted,
}

impl View for Effect {
    type V = EffectModel;

    open spec fn view(&self) -> EffectModel {
        match *self {
            Effect::Publish(update) => EffectModel::Publish(update),
            Effect::PublishHandoff => EffectModel::PublishHandoff,
            Effect::CloseSocket => EffectModel::CloseSocket,
            Effect::Mpris(command) => EffectModel::Mpris(command@),
            Effect::Route { device, mode } => EffectModel::Route { device, mode },
            Effect::CancelRoute => EffectModel::CancelRoute,
            Effect::Page { seq, attempt, adapter, device } => EffectModel::Page {
                seq,
                attempt,
                adapter,
                device,
            },
            Effect::PageRefused { seq, why } => EffectModel::PageRefused { seq, why: why@ },
            Effect::ResolveEar => EffectModel::ResolveEar,
            Effect::LinkSessionStarted => EffectModel::LinkSessionStarted,
            Effect::StreamNotStarted => EffectModel::StreamNotStarted,
        }
    }
}

/// The effects of a list, texts read as sequences.
pub open spec fn effect_views(effects: Seq<Effect>) -> Seq<EffectModel> {
    effects.map_values(|e: Effect| e@)
}

/// A reconnect sequence the supervisor is publishing.
#[derive(Debug, PartialEq, Eq)]
pub struct LinkSequence {
    /// True for a rejoin, false for proximity auto-connect.
    pub rejoin: bool,
    /// Sequence number inside that machine; it identifies the sequence, so a
    /// new one that starts in the same event gets its own start time.
    pub seq: u64,
    /// Published reason. Decided when the sequence starts, because the
    /// evidence for it (the bud address history) ages out.
    pub reason: LinkReason,
    /// When it began, in UTC.
    pub since: String,
}

impl Clone for LinkSequence {
    fn clone(&self) -> (r: Self)
        ensures
            r == *self,
    {
        LinkSequence {
            rejoin: self.rejoin,
            seq: self.seq,
            reason: self.reason,
            since: self.since.clone(),
        }
    }
}

/// Everything the supervisor remembers, as mathematical values.
pub struct SessionModel {
    /// Knobs from the environment.
    pub cfg: SessionConfig,
    /// Local adapter.
    pub adapter: Option<Address>,
    /// The AirPods.
    pub device: Option<Address>,
    /// The identity was selected from an explicit pin.
    pub pinned: bool,
    /// The classic link is up.
    pub acl: bool,
    /// The AAP link is up.
    pub open: bool,
    /// When the armed dial is due.
    pub dial_at: Option<Instant>,
    /// Why a dial is armed.
    pub dial_kind: Option<DialKind>,
    /// Invalidates a dial or handshake when the selected link changes.
    pub generation: u64,
    /// Unattended recovery is off until a new local link is observed.
    pub suppressed: bool,
    /// When notifications were last asked for.
    pub handshake_at: Option<Instant>,
    /// When the accessory was last heard.
    pub last_packet: Option<Instant>,
    /// This link produced a battery packet.
    pub battery_seen: bool,
    /// Notification requests sent again.
    pub resends: u8,
    /// When the idle probe was sent, while its answer is outstanding.
    pub probe_at: Option<Instant>,
    /// When the debounced reopen after a setting write is due.
    pub verify_at: Option<Instant>,
    /// Deadline for the whole readback.
    pub verify_budget: Option<Instant>,
    /// When the current link's settings dump is judged finished.
    pub readback_at: Option<Instant>,
    /// Dials made in this local link period.
    pub dial_attempt: u32,
    /// Variant of the session that is open or was last attempted.
    pub active: FeaturesVariant,
    /// Variant that has produced a battery packet.
    pub locked: Option<FeaturesVariant>,
    /// Apple multi-host switching.
    pub handoff: HandoffModel,
    /// Its side effects, decided but not yet performed.
    pub queued: Seq<handoff::ActionModel>,
    /// `btName` announced to other hosts.
    pub bt_name: Seq<char>,
    /// Audio profiles and the local card may be changed.
    pub control_audio: bool,
    /// The way the local card was last pointed.
    pub route: Option<RouteMode>,
    /// Latest local playback reading.
    pub last_playback: Option<PlaybackReading>,
    /// In-ear detection driving the local players.
    pub ear: EarMediaModel,
    /// Changes whenever this host does not own the audio.
    pub claim_epoch: u64,
    /// The rejoin that is scheduled or under way.
    pub rejoin: Option<rejoin::Pending>,
    /// Proximity auto-connect.
    pub auto: AutoConnectState,
    /// Sequence allowed to call `Device1.Connect`; zero after a cancel.
    pub auto_epoch: u64,
    /// Auto-connect may call `Device1.Connect`.
    pub auto_control: bool,
    /// The last two distinct primary bud addresses, oldest first, each with
    /// the time it first appeared.
    pub buds: Seq<(Address, Instant)>,
    /// The reconnect sequence currently published.
    pub sequence: Option<LinkSequence>,
    /// Last reconnect sequence handed to the store.
    pub published: Option<LinkActivity>,
    /// What is to be done, in order.
    pub effects: Seq<EffectModel>,
}

/// One more, or zero after the largest.
pub open spec fn bumped(n: u64) -> u64 {
    if n == u64::MAX {
        0
    } else {
        (n + 1) as u64
    }
}

fn bump(n: u64) -> (r: u64)
    ensures
        r == bumped(n),
{
    if n == u64::MAX {
        0
    } else {
        n + 1
    }
}

impl SessionModel {
    /// The auto-connect machine counts its attempts within its limit.
    pub open spec fn valid(self) -> bool {
        self.auto.valid()
    }

    /// Every deadline an event can set now fits the clock, and every number it
    /// can give out fits its counter.
    pub open spec fn ready(self, now: Instant) -> bool {
        &&& now + LONGEST_DEADLINE <= u128::MAX
        &&& self.auto.seq < u64::MAX
        &&& now + self.auto.settle <= u128::MAX
        &&& now + self.auto.fallback_first <= u128::MAX
        &&& now + self.auto.fallback_interval <= u128::MAX
        &&& self.auto.fallback_from matches Some(from) ==> from + self.auto.fallback_first
            <= u128::MAX
    }

    /// One more thing to do.
    pub open spec fn emit(self, effect: EffectModel) -> SessionModel {
        SessionModel { effects: self.effects.push(effect), ..self }
    }

    /// One more change to the published state.
    pub open spec fn publish(self, update: Update) -> SessionModel {
        self.emit(EffectModel::Publish(update))
    }

    /// A side effect of the handoff machine: a record is kept, a warning goes
    /// out, and everything else waits to be performed.
    #[verifier::opaque]
    pub open spec fn absorb_one(self, action: handoff::ActionModel, at: Seq<char>) -> SessionModel {
        match action {
            handoff::ActionModel::Record { kind, peer } => SessionModel {
                handoff: HandoffModel {
                    last_event: Some(
                        handoff::RecordedModel { kind, at, peer: handoff::peer_text(peer) },
                    ),
                    ..self.handoff
                },
                ..self
            },
            handoff::ActionModel::StreamNotStarted => self.emit(EffectModel::StreamNotStarted),
            _ => SessionModel { queued: self.queued.push(action), ..self },
        }
    }

    /// Side effects of the handoff machine, in order.
    #[verifier::opaque]
    pub open spec fn absorb(self, actions: Seq<handoff::ActionModel>, at: Seq<char>) -> SessionModel
        decreases actions.len(),
    {
        if actions.len() == 0 {
            self
        } else {
            self.absorb(actions.drop_last(), at).absorb_one(actions.last(), at)
        }
    }

    /// The handoff machine took a step.
    #[verifier::opaque]
    pub open spec fn after_handoff(self, step: handoff::Step, t: Moment) -> SessionModel {
        SessionModel { handoff: step.0, ..self }.absorb(step.1, t.local@).handoff_settled()
    }

    /// A claim in flight is void unless this host owns the audio, and the
    /// published section follows.
    #[verifier::opaque]
    pub open spec fn handoff_settled(self) -> SessionModel {
        SessionModel {
            claim_epoch: if self.handoff.owns() {
                self.claim_epoch
            } else {
                bumped(self.claim_epoch)
            },
            ..self
        }.emit(EffectModel::PublishHandoff)
    }

    /// One event for the handoff machine.
    #[verifier::opaque]
    pub open spec fn handoff_event(self, event: handoff::Event, t: Moment) -> SessionModel {
        self.after_handoff(handoff::step(self.handoff, event, t.now), t)
    }

    /// Local audio goes to the AirPods: the link is up, the card has not been
    /// taken off them for a yield, and handoff, when it is on, says this host
    /// owns them.
    pub open spec fn ear_context(self) -> ear_media::Context {
        ear_media::Context {
            audio_on_airpods: self.acl && self.route != Some(RouteMode::Yielded) && (
            !self.handoff.enabled || self.handoff.owns()),
        }
    }

    /// A side effect of ear detection: a request to the media players.
    #[verifier::opaque]
    pub open spec fn ear_one(self, action: ear_media::ActionModel) -> SessionModel {
        match action {
            ear_media::ActionModel::PauseLocalPlayers => self.emit(
                EffectModel::Mpris(MprisModel::PausePlaying),
            ),
            ear_media::ActionModel::ResumePlayer { player: Some(name) } => self.emit(
                EffectModel::Mpris(MprisModel::Play(name)),
            ),
            ear_media::ActionModel::ResumePlayer { player: None } => self,
        }
    }

    /// Side effects of ear detection, in order.
    #[verifier::opaque]
    pub open spec fn ear_all(self, actions: Seq<ear_media::ActionModel>) -> SessionModel
        decreases actions.len(),
    {
        if actions.len() == 0 {
            self
        } else {
            self.ear_all(actions.drop_last()).ear_one(actions.last())
        }
    }

    /// One event for ear detection.
    #[verifier::opaque]
    pub open spec fn ear_event(self, event: ear_media::Event, t: Moment) -> SessionModel {
        let step = ear_media::step(self.ear, event, self.ear_context(), t.now);
        SessionModel { ear: step.0, ..self }.ear_all(step.1)
    }

    /// Point the local card, if that is allowed and the device is known.
    #[verifier::opaque]
    pub open spec fn routed(self, mode: RouteMode) -> SessionModel {
        match self.device {
            Some(device) => if self.control_audio {
                SessionModel { route: Some(mode), ..self }.emit(
                    EffectModel::Route { device, mode },
                )
            } else {
                self
            },
            None => self,
        }
    }

    /// Stop driving the local card.
    #[verifier::opaque]
    pub open spec fn unrouted(self) -> SessionModel {
        SessionModel { route: None, ..self }.emit(EffectModel::CancelRoute)
    }

    /// What belonged to the AAP link is forgotten.
    pub open spec fn ended(self) -> SessionModel {
        SessionModel {
            open: false,
            handshake_at: None,
            battery_seen: false,
            resends: 0,
            probe_at: None,
            readback_at: None,
            ..self.emit(EffectModel::CloseSocket).publish(Update::AapLink(false))
        }
    }

    /// The AAP link, or the attempt to open one, ended. A yield left the card
    /// off; with the link gone nothing would put it back, so it is restored
    /// while the device is still there.
    #[verifier::opaque]
    pub open spec fn closed(self, t: Moment) -> SessionModel {
        let m = self.ended().handoff_event(handoff::Event::LinkClosed, t).ear_event(
            ear_media::Event::LinkClosed,
            t,
        );
        if m.route != Some(RouteMode::Yielded) {
            m
        } else if m.acl {
            m.routed(RouteMode::Own)
        } else {
            m.unrouted()
        }
    }

    /// One dial is armed.
    pub open spec fn armed(self, kind: DialKind, at: Instant) -> SessionModel {
        SessionModel { dial_kind: Some(kind), dial_at: Some(at), ..self }
    }

    /// Unattended recovery stops for this local link period.
    #[verifier::opaque]
    pub open spec fn suppress(self, t: Moment) -> SessionModel {
        SessionModel { suppressed: true, dial_at: None, dial_kind: None, ..self }.closed(t)
    }

    /// The link is dropped and one immediate manual dial armed.
    #[verifier::opaque]
    pub open spec fn reopened(self, t: Moment) -> SessionModel {
        self.closed(t).armed(DialKind::Manual, t.now)
    }

    /// The primary bud address moved a short while ago: the buds handed the
    /// radio link to the other bud and cut this host doing it.
    pub open spec fn bud_switched(self, now: Instant) -> bool {
        self.buds.len() == 2 && elapsed(now, self.buds[1].1) <= BUD_SWITCH_WINDOW
    }

    /// Why the pending rejoin runs.
    pub open spec fn rejoin_reason(self, now: Instant) -> LinkReason {
        if self.bud_switched(now) {
            LinkReason::BudSwitch
        } else if self.rejoin matches Some(p) && p.link_lost {
            LinkReason::LinkLost
        } else {
            LinkReason::TakenOver
        }
    }

    /// The reconnect sequence that is to be shown. A rejoin comes before
    /// auto-connect, and a sequence already shown keeps its reason and its
    /// start.
    pub open spec fn shown_sequence(self, t: Moment) -> Option<LinkSequence> {
        let current = match self.rejoin {
            Some(p) => Some((true, p.seq)),
            None => match self.auto.pending {
                Some(p) => Some((false, p.seq)),
                None => None,
            },
        };
        match current {
            Some((rejoin, seq)) => if self.sequence matches Some(l) && l.rejoin == rejoin && l.seq
                == seq {
                self.sequence
            } else {
                Some(
                    LinkSequence {
                        rejoin,
                        seq,
                        reason: if rejoin {
                            self.rejoin_reason(t.now)
                        } else {
                            LinkReason::AutoConnect
                        },
                        since: t.utc,
                    },
                )
            },
            None => None,
        }
    }

    /// Connects started by the auto-connect sequence under way.
    pub open spec fn auto_attempt(self) -> int {
        match self.auto.pending {
            Some(p) => if p.in_flight {
                p.attempt as int
            } else {
                p.attempt - 1
            },
            None => 0,
        }
    }

    /// What the store is told of a sequence.
    pub open spec fn activity(self, sequence: Option<LinkSequence>) -> Option<LinkActivity> {
        match sequence {
            Some(l) => Some(
                LinkActivity {
                    reason: l.reason,
                    attempt: if l.rejoin {
                        match self.rejoin {
                            Some(p) => p.attempt as u32,
                            None => 0,
                        }
                    } else {
                        self.auto_attempt() as u32
                    },
                    since: l.since,
                },
            ),
            None => None,
        }
    }

    /// The reconnect sequence is published when what is shown of it changes.
    #[verifier::opaque]
    pub open spec fn link_published(self, t: Moment) -> SessionModel {
        let sequence = self.shown_sequence(t);
        let view = self.activity(sequence);
        let m = SessionModel { sequence, published: view, ..self };
        if same_activity(view, self.published) {
            m
        } else {
            m.publish(Update::Link(view))
        }
    }

    /// The rejoin machine took a step.
    #[verifier::opaque]
    pub open spec fn rejoin_seen(self, rejoin: Option<rejoin::Pending>, t: Moment) -> SessionModel {
        SessionModel { rejoin, ..self }.link_published(t)
    }

    /// The two ends of a `Device1.Connect`, or why it is not made.
    pub open spec fn page_target(self, allowed: bool) -> Result<(Address, Address), Seq<char>> {
        match (self.adapter, self.device) {
            (Some(adapter), Some(device)) => if allowed {
                Ok((adapter, device))
            } else {
                Err("link_control_off"@)
            },
            _ => Err("device_unknown"@),
        }
    }

    /// A side effect of auto-connect.
    #[verifier::opaque]
    pub open spec fn auto_one(self, action: autoconnect::ActionModel) -> SessionModel {
        match action {
            autoconnect::ActionModel::Connect { seq, attempt } => match self.page_target(
                self.auto_control,
            ) {
                Ok((adapter, device)) => SessionModel { auto_epoch: seq, ..self }.emit(
                    EffectModel::Page { seq, attempt, adapter, device },
                ),
                Err(why) => self.emit(EffectModel::PageRefused { seq, why }),
            },
            autoconnect::ActionModel::Cancelled(_) => SessionModel { auto_epoch: 0, ..self },
            autoconnect::ActionModel::GaveUp(_) => SessionModel { auto_epoch: 0, ..self },
            _ => self,
        }
    }

    /// Side effects of auto-connect, in order.
    #[verifier::opaque]
    pub open spec fn auto_all(self, actions: Seq<autoconnect::ActionModel>) -> SessionModel
        decreases actions.len(),
    {
        if actions.len() == 0 {
            self
        } else {
            self.auto_all(actions.drop_last()).auto_one(actions.last())
        }
    }

    /// One event for auto-connect. Rejoin owns eviction recovery: auto-connect
    /// is told whether one is pending.
    #[verifier::opaque]
    pub open spec fn auto_event(self, event: autoconnect::Event, t: Moment) -> SessionModel {
        let step = autoconnect::step(
            AutoConnectState { rejoin_pending: self.rejoin is Some, ..self.auto },
            event,
            t.now,
        );
        SessionModel { auto: step.0, ..self }.auto_all(step.1).link_published(t)
    }
}

// ---------------------------------------------------------------------------
// What each step leaves alone
// ---------------------------------------------------------------------------

impl SessionModel {
    /// The link, its timers and the configuration are the same.
    pub open spec fn keeps_link(self, after: SessionModel) -> bool {
        &&& after.cfg == self.cfg
        &&& after.adapter == self.adapter
        &&& after.device == self.device
        &&& after.pinned == self.pinned
        &&& after.acl == self.acl
        &&& after.open == self.open
        &&& after.dial_at == self.dial_at
        &&& after.dial_kind == self.dial_kind
        &&& after.generation == self.generation
        &&& after.suppressed == self.suppressed
        &&& after.handshake_at == self.handshake_at
        &&& after.last_packet == self.last_packet
        &&& after.battery_seen == self.battery_seen
        &&& after.resends == self.resends
        &&& after.probe_at == self.probe_at
        &&& after.verify_at == self.verify_at
        &&& after.verify_budget == self.verify_budget
        &&& after.readback_at == self.readback_at
        &&& after.dial_attempt == self.dial_attempt
        &&& after.active == self.active
        &&& after.locked == self.locked
        &&& after.bt_name == self.bt_name
        &&& after.control_audio == self.control_audio
        &&& after.last_playback == self.last_playback
        &&& after.auto_control == self.auto_control
        &&& after.buds == self.buds
    }

    /// The reconnect machines and what is shown of them are the same.
    pub open spec fn keeps_reconnects(self, after: SessionModel) -> bool {
        &&& after.rejoin == self.rejoin
        &&& after.auto == self.auto
        &&& after.auto_epoch == self.auto_epoch
        &&& after.sequence == self.sequence
        &&& after.published == self.published
    }

    /// Apple multi-host switching, its queue and the claim in flight are the
    /// same.
    pub open spec fn keeps_handoff(self, after: SessionModel) -> bool {
        &&& after.handoff == self.handoff
        &&& after.queued == self.queued
        &&& after.claim_epoch == self.claim_epoch
    }
}

/// The switching state without the published record.
pub open spec fn unrecorded(m: HandoffModel) -> HandoffModel {
    HandoffModel { last_event: None, ..m }
}

proof fn absorb_one_keeps(m: SessionModel, action: handoff::ActionModel, at: Seq<char>)
    ensures
        m.keeps_link(m.absorb_one(action, at)),
        m.keeps_reconnects(m.absorb_one(action, at)),
        m.absorb_one(action, at).ear == m.ear,
        m.absorb_one(action, at).route == m.route,
        m.absorb_one(action, at).claim_epoch == m.claim_epoch,
        unrecorded(m.absorb_one(action, at).handoff) == unrecorded(m.handoff),
{
    reveal(SessionModel::absorb_one);
}

/// Performing handoff side effects changes the record, the queue and the
/// effects, and nothing else.
pub proof fn absorb_keeps(m: SessionModel, actions: Seq<handoff::ActionModel>, at: Seq<char>)
    ensures
        m.keeps_link(m.absorb(actions, at)),
        m.keeps_reconnects(m.absorb(actions, at)),
        m.absorb(actions, at).ear == m.ear,
        m.absorb(actions, at).route == m.route,
        m.absorb(actions, at).claim_epoch == m.claim_epoch,
        unrecorded(m.absorb(actions, at).handoff) == unrecorded(m.handoff),
    decreases actions.len(),
{
    if actions.len() > 0 {
        let head = m.absorb(actions.drop_last(), at);
        assert(m.absorb(actions, at) == head.absorb_one(actions.last(), at)) by {
            reveal(SessionModel::absorb);
        }
        absorb_keeps(m, actions.drop_last(), at);
        absorb_one_keeps(head, actions.last(), at);
    } else {
        assert(m.absorb(actions, at) == m) by {
            reveal(SessionModel::absorb);
        }
    }
}

/// Performing ear-detection side effects adds effects, and nothing else.
pub proof fn ear_all_keeps(m: SessionModel, actions: Seq<ear_media::ActionModel>)
    ensures
        m.keeps_link(m.ear_all(actions)),
        m.keeps_reconnects(m.ear_all(actions)),
        m.keeps_handoff(m.ear_all(actions)),
        m.ear_all(actions).ear == m.ear,
        m.ear_all(actions).route == m.route,
    decreases actions.len(),
{
    if actions.len() > 0 {
        let head = m.ear_all(actions.drop_last());
        assert(m.ear_all(actions) == head.ear_one(actions.last())) by {
            reveal(SessionModel::ear_all);
        }
        ear_all_keeps(m, actions.drop_last());
        reveal(SessionModel::ear_one);
    } else {
        assert(m.ear_all(actions) == m) by {
            reveal(SessionModel::ear_all);
        }
    }
}

/// Performing auto-connect side effects changes the sequence that may page and
/// the effects, and nothing else.
pub proof fn auto_all_keeps(m: SessionModel, actions: Seq<autoconnect::ActionModel>)
    ensures
        m.keeps_link(m.auto_all(actions)),
        m.keeps_handoff(m.auto_all(actions)),
        m.auto_all(actions).ear == m.ear,
        m.auto_all(actions).route == m.route,
        m.auto_all(actions).rejoin == m.rejoin,
        m.auto_all(actions).auto == m.auto,
        m.auto_all(actions).sequence == m.sequence,
        m.auto_all(actions).published == m.published,
    decreases actions.len(),
{
    if actions.len() > 0 {
        let head = m.auto_all(actions.drop_last());
        assert(m.auto_all(actions) == head.auto_one(actions.last())) by {
            reveal(SessionModel::auto_all);
        }
        auto_all_keeps(m, actions.drop_last());
        reveal(SessionModel::auto_one);
    } else {
        assert(m.auto_all(actions) == m) by {
            reveal(SessionModel::auto_all);
        }
    }
}

/// A step of the handoff machine touches that machine, its queue, the claim in
/// flight and the effects, and nothing else.
pub proof fn handoff_keeps(m: SessionModel, step: handoff::Step, t: Moment)
    ensures
        m.keeps_link(m.after_handoff(step, t)),
        m.keeps_reconnects(m.after_handoff(step, t)),
        m.after_handoff(step, t).ear == m.ear,
        m.after_handoff(step, t).route == m.route,
        unrecorded(m.after_handoff(step, t).handoff) == unrecorded(step.0),
{
    reveal(SessionModel::after_handoff);
    reveal(SessionModel::handoff_settled);
    absorb_keeps(SessionModel { handoff: step.0, ..m }, step.1, t.local@);
}

/// An event for the handoff machine touches that machine, its queue, the claim
/// in flight and the effects, and nothing else.
pub proof fn handoff_event_keeps(m: SessionModel, event: handoff::Event, t: Moment)
    ensures
        m.keeps_link(m.handoff_event(event, t)),
        m.keeps_reconnects(m.handoff_event(event, t)),
        m.handoff_event(event, t).ear == m.ear,
        m.handoff_event(event, t).route == m.route,
        unrecorded(m.handoff_event(event, t).handoff) == unrecorded(
            handoff::step(m.handoff, event, t.now).0,
        ),
{
    reveal(SessionModel::handoff_event);
    handoff_keeps(m, handoff::step(m.handoff, event, t.now), t);
}

/// An event for ear detection touches that machine and the effects, and
/// nothing else: it is never a handoff.
pub proof fn ear_keeps(m: SessionModel, event: ear_media::Event, t: Moment)
    ensures
        m.keeps_link(m.ear_event(event, t)),
        m.keeps_reconnects(m.ear_event(event, t)),
        m.keeps_handoff(m.ear_event(event, t)),
        m.ear_event(event, t).route == m.route,
{
    reveal(SessionModel::ear_event);
    let step = ear_media::step(m.ear, event, m.ear_context(), t.now);
    ear_all_keeps(SessionModel { ear: step.0, ..m }, step.1);
}

/// The end of the AAP link touches what belongs to that link, and nothing
/// else. Afterwards the local card is not left pointed away while this host
/// may point it back.
pub proof fn closed_keeps(m: SessionModel, t: Moment)
    ensures
        m.ended().keeps_link(m.closed(t)),
        m.keeps_reconnects(m.closed(t)),
        m.closed(t).route == Some(RouteMode::Yielded) ==> m.acl && !(m.control_audio
            && m.device is Some),
{
    reveal(SessionModel::closed);
    reveal(SessionModel::routed);
    reveal(SessionModel::unrouted);
    let m1 = m.ended();
    let m2 = m1.handoff_event(handoff::Event::LinkClosed, t);
    handoff_event_keeps(m1, handoff::Event::LinkClosed, t);
    ear_keeps(m2, ear_media::Event::LinkClosed, t);
}

/// Publishing the reconnect sequence touches what is shown of it and the
/// effects, and nothing else.
pub proof fn link_keeps(m: SessionModel, t: Moment)
    ensures
        m.keeps_link(m.link_published(t)),
        m.keeps_handoff(m.link_published(t)),
        m.link_published(t).ear == m.ear,
        m.link_published(t).route == m.route,
        m.link_published(t).rejoin == m.rejoin,
        m.link_published(t).auto == m.auto,
        m.link_published(t).auto_epoch == m.auto_epoch,
        m.link_published(t).sequence == m.shown_sequence(t),
        m.link_published(t).published == m.activity(m.shown_sequence(t)),
{
    reveal(SessionModel::link_published);
}

/// A step of the rejoin machine touches what is shown of a reconnect sequence
/// and the effects, and nothing else.
pub proof fn rejoin_keeps(m: SessionModel, rejoin: Option<rejoin::Pending>, t: Moment)
    ensures
        m.keeps_link(m.rejoin_seen(rejoin, t)),
        m.keeps_handoff(m.rejoin_seen(rejoin, t)),
        m.rejoin_seen(rejoin, t).ear == m.ear,
        m.rejoin_seen(rejoin, t).route == m.route,
        m.rejoin_seen(rejoin, t).rejoin == rejoin,
        m.rejoin_seen(rejoin, t).auto == m.auto,
        m.rejoin_seen(rejoin, t).auto_epoch == m.auto_epoch,
{
    reveal(SessionModel::rejoin_seen);
    link_keeps(SessionModel { rejoin, ..m }, t);
}

/// An event for auto-connect touches that machine, what is shown of a
/// reconnect sequence and the effects, and nothing else.
pub proof fn auto_keeps(m: SessionModel, event: autoconnect::Event, t: Moment)
    ensures
        m.keeps_link(m.auto_event(event, t)),
        m.keeps_handoff(m.auto_event(event, t)),
        m.auto_event(event, t).ear == m.ear,
        m.auto_event(event, t).route == m.route,
        m.auto_event(event, t).rejoin == m.rejoin,
{
    reveal(SessionModel::auto_event);
    let step = autoconnect::step(
        AutoConnectState { rejoin_pending: m.rejoin is Some, ..m.auto },
        event,
        t.now,
    );
    let m1 = SessionModel { auto: step.0, ..m };
    auto_all_keeps(m1, step.1);
    link_keeps(m1.auto_all(step.1), t);
}

/// The supervisor: everything one AAP session remembers.
#[derive(Debug)]
pub struct Supervisor {
    cfg: SessionConfig,
    adapter: Option<Address>,
    device: Option<Address>,
    pinned: bool,
    acl: bool,
    open: bool,
    dial_at: Option<Instant>,
    dial_kind: Option<DialKind>,
    generation: u64,
    suppressed: bool,
    handshake_at: Option<Instant>,
    last_packet: Option<Instant>,
    battery_seen: bool,
    resends: u8,
    probe_at: Option<Instant>,
    verify_at: Option<Instant>,
    verify_budget: Option<Instant>,
    readback_at: Option<Instant>,
    dial_attempt: u32,
    active: FeaturesVariant,
    locked: Option<FeaturesVariant>,
    handoff: HandoffState,
    queued: Vec<handoff::Action>,
    bt_name: String,
    control_audio: bool,
    route: Option<RouteMode>,
    last_playback: Option<PlaybackReading>,
    ear: EarMediaState,
    claim_epoch: u64,
    rejoin: Option<rejoin::Pending>,
    auto: AutoConnectState,
    auto_epoch: u64,
    auto_control: bool,
    buds: Vec<(Address, Instant)>,
    sequence: Option<LinkSequence>,
    published: Option<LinkActivity>,
    effects: Vec<Effect>,
}

impl Supervisor {
    /// The state as mathematical values.
    pub closed spec fn model(self) -> SessionModel {
        SessionModel {
            cfg: self.cfg,
            adapter: self.adapter,
            device: self.device,
            pinned: self.pinned,
            acl: self.acl,
            open: self.open,
            dial_at: self.dial_at,
            dial_kind: self.dial_kind,
            generation: self.generation,
            suppressed: self.suppressed,
            handshake_at: self.handshake_at,
            last_packet: self.last_packet,
            battery_seen: self.battery_seen,
            resends: self.resends,
            probe_at: self.probe_at,
            verify_at: self.verify_at,
            verify_budget: self.verify_budget,
            readback_at: self.readback_at,
            dial_attempt: self.dial_attempt,
            active: self.active,
            locked: self.locked,
            handoff: self.handoff.model(),
            queued: handoff::action_views(self.queued@),
            bt_name: self.bt_name@,
            control_audio: self.control_audio,
            route: self.route,
            last_playback: self.last_playback,
            ear: self.ear.model(),
            claim_epoch: self.claim_epoch,
            rejoin: self.rejoin,
            auto: self.auto,
            auto_epoch: self.auto_epoch,
            auto_control: self.auto_control,
            buds: self.buds@,
            sequence: self.sequence,
            published: self.published,
            effects: effect_views(self.effects@),
        }
    }

    fn emit(&mut self, effect: Effect)
        ensures
            final(self).model() == old(self).model().emit(effect@),
    {
        proof {
            assert(effect_views(self.effects@.push(effect)) =~= effect_views(self.effects@).push(
                effect@,
            ));
        }
        self.effects.push(effect);
    }

    fn publish(&mut self, update: Update)
        ensures
            final(self).model() == old(self).model().publish(update),
    {
        self.emit(Effect::Publish(update));
    }

    fn absorb_one(&mut self, action: handoff::Action, t: &Moment)
        ensures
            final(self).model() == old(self).model().absorb_one(action@, t.local@),
    {
        proof {
            reveal(SessionModel::absorb_one);
        }
        let ghost queued = self.queued@;
        match action {
            handoff::Action::Record { kind, peer } => {
                self.handoff.record(kind, peer, t.local.clone());
            },
            handoff::Action::StreamNotStarted => {
                self.emit(Effect::StreamNotStarted);
            },
            other => {
                proof {
                    assert(handoff::action_views(queued.push(other)) =~= handoff::action_views(
                        queued,
                    ).push(other@));
                }
                self.queued.push(other);
            },
        }
    }

    fn absorb(&mut self, actions: Vec<handoff::Action>, t: &Moment)
        ensures
            final(self).model() == old(self).model().absorb(
                handoff::action_views(actions@),
                t.local@,
            ),
    {
        let ghost before = self.model();
        let ghost all = handoff::action_views(actions@);
        proof {
            reveal(SessionModel::absorb);
            assert(all.take(0) =~= Seq::empty());
        }
        for action in it: actions
            invariant
                it.seq() == actions@,
                all == handoff::action_views(actions@),
                self.model() == before.absorb(all.take(it.index() as int), t.local@),
        {
            let ghost i = it.index() as int;
            proof {
                reveal(SessionModel::absorb);
                assert(all.take(i + 1).drop_last() =~= all.take(i));
                assert(all.take(i + 1).last() == all[i]);
                assert(all[i] == action@);
            }
            self.absorb_one(action, t);
        }
        proof {
            assert(all.take(all.len() as int) =~= all);
        }
    }

    fn handoff_event(&mut self, event: handoff::Event, t: &Moment)
        requires
            (event is Tick || event is TakeOver) ==> t.now + handoff::STREAM_CHECK <= u128::MAX,
        ensures
            final(self).model() == old(self).model().handoff_event(event, *t),
            final(self).model().auto == old(self).model().auto,
    {
        proof {
            reveal(SessionModel::after_handoff);
            reveal(SessionModel::handoff_event);
            handoff_event_keeps(self.model(), event, *t);
        }
        let ghost before = self.model();
        let ghost step = handoff::step(before.handoff, event, t.now);
        let actions = handoff::decide(&mut self.handoff, event, t.now);
        proof {
            assert(self.model() == SessionModel { handoff: step.0, ..before });
            assert(handoff::action_views(actions@) == step.1);
        }
        self.absorb(actions, t);
        self.settle_handoff();
    }

    fn settle_handoff(&mut self)
        ensures
            final(self).model() == old(self).model().handoff_settled(),
    {
        proof {
            reveal(SessionModel::handoff_settled);
        }
        if !self.handoff.owns_audio() {
            self.claim_epoch = bump(self.claim_epoch);
        }
        self.emit(Effect::PublishHandoff);
    }

    fn ear_context(&self) -> (r: ear_media::Context)
        ensures
            r == self.model().ear_context(),
    {
        ear_media::Context {
            audio_on_airpods: self.acl && self.route != Some(RouteMode::Yielded) && (
            !self.handoff.is_enabled() || self.handoff.owns_audio()),
        }
    }

    fn ear_all(&mut self, actions: Vec<ear_media::Action>)
        ensures
            final(self).model() == old(self).model().ear_all(ear_media::action_views(actions@)),
    {
        let ghost before = self.model();
        let ghost all = ear_media::action_views(actions@);
        proof {
            reveal(SessionModel::ear_all);
            assert(all.take(0) =~= Seq::empty());
        }
        for action in it: actions
            invariant
                it.seq() == actions@,
                all == ear_media::action_views(actions@),
                self.model() == before.ear_all(all.take(it.index() as int)),
        {
            let ghost i = it.index() as int;
            proof {
                reveal(SessionModel::ear_all);
                reveal(SessionModel::ear_one);
                assert(all.take(i + 1).drop_last() =~= all.take(i));
                assert(all.take(i + 1).last() == all[i]);
                assert(all[i] == action@);
            }
            match action {
                ear_media::Action::PauseLocalPlayers => {
                    self.emit(Effect::Mpris(MprisCommand::PausePlaying));
                },
                ear_media::Action::ResumePlayer { player: Some(name) } => {
                    self.emit(Effect::Mpris(MprisCommand::Play(name)));
                },
                ear_media::Action::ResumePlayer { player: None } => {},
            }
        }
        proof {
            assert(all.take(all.len() as int) =~= all);
        }
    }

    fn ear_event(&mut self, event: ear_media::Event, t: &Moment)
        ensures
            final(self).model() == old(self).model().ear_event(event, *t),
            final(self).model().auto == old(self).model().auto,
    {
        proof {
            reveal(SessionModel::ear_event);
            ear_keeps(self.model(), event, *t);
        }
        let ctx = self.ear_context();
        let actions = ear_media::decide(&mut self.ear, event, ctx, t.now);
        self.ear_all(actions);
    }

    fn set_route(&mut self, mode: RouteMode)
        ensures
            final(self).model() == old(self).model().routed(mode),
            final(self).model().auto == old(self).model().auto,
    {
        proof {
            reveal(SessionModel::routed);
        }
        if let Some(device) = self.device {
            if self.control_audio {
                self.route = Some(mode);
                self.emit(Effect::Route { device, mode });
            }
        }
    }

    fn cancel_route(&mut self)
        ensures
            final(self).model() == old(self).model().unrouted(),
            final(self).model().auto == old(self).model().auto,
    {
        proof {
            reveal(SessionModel::unrouted);
        }
        self.route = None;
        self.emit(Effect::CancelRoute);
    }

    /// The AAP link, or the attempt to open one, ended. Opening packets can
    /// arrive before a socket is promoted, so what they said is always
    /// invalidated.
    pub fn drop_socket(&mut self, t: &Moment)
        ensures
            final(self).model() == old(self).model().closed(*t),
            final(self).model().auto == old(self).model().auto,
    {
        proof {
            reveal(SessionModel::closed);
        }
        self.emit(Effect::CloseSocket);
        self.publish(Update::AapLink(false));
        self.open = false;
        self.handshake_at = None;
        self.battery_seen = false;
        self.resends = 0;
        self.probe_at = None;
        self.readback_at = None;
        self.handoff_event(handoff::Event::LinkClosed, t);
        self.ear_event(ear_media::Event::LinkClosed, t);
        if self.route == Some(RouteMode::Yielded) {
            if self.acl {
                self.set_route(RouteMode::Own);
            } else {
                self.cancel_route();
            }
        }
    }

    /// Stop unattended recovery for this local-link period. A vanished peer,
    /// failed write, or unanswered watchdog cannot distinguish a reset from a
    /// host handoff, so retrying might reclaim audio from that other host.
    pub fn suppress_automatic(&mut self, t: &Moment)
        ensures
            final(self).model() == old(self).model().suppress(*t),
            final(self).model().auto == old(self).model().auto,
    {
        proof {
            reveal(SessionModel::suppress);
        }
        self.suppressed = true;
        self.dial_at = None;
        self.dial_kind = None;
        self.drop_socket(t);
    }

    /// Drop the socket and arm one immediate manual dial. Shared by the
    /// `reconnect` request and by the settings readback, which must reopen the
    /// AAP link exactly the same way rather than through a BlueZ reconnect.
    fn reopen_local_link(&mut self, t: &Moment)
        ensures
            final(self).model() == old(self).model().reopened(*t),
            final(self).model().auto == old(self).model().auto,
    {
        proof {
            reveal(SessionModel::reopened);
        }
        self.drop_socket(t);
        self.dial_kind = Some(DialKind::Manual);
        self.dial_at = Some(t.now);
    }

    /// The primary bud address moved inside [`BUD_SWITCH_WINDOW`]: the buds
    /// handed the radio link to the other bud and cut this host doing it.
    pub fn bud_switched_recently(&self, now: Instant) -> (r: bool)
        ensures
            r == self.model().bud_switched(now),
    {
        self.buds.len() == 2 && since(now, self.buds[1].1) <= BUD_SWITCH_WINDOW
    }

    fn rejoin_reason(&self, now: Instant) -> (r: LinkReason)
        ensures
            r == self.model().rejoin_reason(now),
    {
        if self.bud_switched_recently(now) {
            return LinkReason::BudSwitch;
        }
        match self.rejoin {
            Some(p) => if p.link_lost {
                LinkReason::LinkLost
            } else {
                LinkReason::TakenOver
            },
            None => LinkReason::TakenOver,
        }
    }

    fn shown(&self, t: &Moment) -> (r: Option<LinkSequence>)
        ensures
            r == self.model().shown_sequence(*t),
    {
        let current: Option<(bool, u64)> = match self.rejoin {
            Some(p) => Some((true, p.seq)),
            None => match self.auto.pending_seq() {
                Some(seq) => Some((false, seq)),
                None => None,
            },
        };
        match current {
            Some((rejoin, seq)) => {
                if let Some(l) = &self.sequence {
                    if l.rejoin == rejoin && l.seq == seq {
                        return Some(l.clone());
                    }
                }
                let reason = if rejoin {
                    self.rejoin_reason(t.now)
                } else {
                    LinkReason::AutoConnect
                };
                Some(LinkSequence { rejoin, seq, reason, since: t.utc.clone() })
            },
            None => None,
        }
    }

    fn activity(&self, sequence: &Option<LinkSequence>) -> (r: Option<LinkActivity>)
        requires
            self.model().valid(),
        ensures
            r == self.model().activity(*sequence),
    {
        match sequence {
            Some(l) => {
                let attempt: u32 = if l.rejoin {
                    match self.rejoin {
                        Some(p) => p.attempt as u32,
                        None => 0,
                    }
                } else {
                    self.auto.pending_attempt() as u32
                };
                Some(LinkActivity { reason: l.reason, attempt, since: l.since.clone() })
            },
            None => None,
        }
    }

    fn publish_link(&mut self, t: &Moment)
        requires
            old(self).model().valid(),
        ensures
            final(self).model() == old(self).model().link_published(*t),
            final(self).model().valid(),
    {
        let sequence = self.shown(t);
        let view = self.activity(&sequence);
        let ghost before = self.model();
        let ghost shown = sequence;
        let known = is_same_activity(&view, &self.published);
        self.sequence = sequence;
        self.published = view.clone();
        if !known {
            self.publish(Update::Link(view));
        }
        proof {
            reveal(SessionModel::link_published);
            assert(before.shown_sequence(*t) == shown);
            assert(before.activity(shown) == view);
        }
    }

    /// The rejoin machine took a step and now has this pending.
    pub fn rejoin_seen(&mut self, rejoin: Option<rejoin::Pending>, t: &Moment)
        requires
            old(self).model().valid(),
        ensures
            final(self).model() == old(self).model().rejoin_seen(rejoin, *t),
            final(self).model().valid(),
            final(self).model().auto == old(self).model().auto,
    {
        proof {
            reveal(SessionModel::rejoin_seen);
            rejoin_keeps(self.model(), rejoin, *t);
        }
        self.rejoin = rejoin;
        self.publish_link(t);
    }

    /// The two ends of a `Device1.Connect`, or why it is not made.
    pub fn page_target(&self, allowed: bool) -> (r: Result<(Address, Address), &'static str>)
        ensures
            match r {
                Ok(ends) => self.model().page_target(allowed) == Ok::<
                    (Address, Address),
                    Seq<char>,
                >(ends),
                Err(why) => self.model().page_target(allowed) == Err::<
                    (Address, Address),
                    Seq<char>,
                >(why@),
            },
    {
        match (self.adapter, self.device) {
            (Some(adapter), Some(device)) => if allowed {
                Ok((adapter, device))
            } else {
                Err("link_control_off")
            },
            _ => Err("device_unknown"),
        }
    }

    fn auto_all(&mut self, actions: Vec<autoconnect::Action>)
        ensures
            final(self).model() == old(self).model().auto_all(autoconnect::action_views(actions@)),
            final(self).model().auto == old(self).model().auto,
    {
        let ghost before = self.model();
        let ghost all = autoconnect::action_views(actions@);
        proof {
            reveal(SessionModel::auto_all);
            assert(all.take(0) =~= Seq::empty());
        }
        for action in it: actions
            invariant
                it.seq() == actions@,
                all == autoconnect::action_views(actions@),
                self.model() == before.auto_all(all.take(it.index() as int)),
                self.model().auto == before.auto,
        {
            let ghost i = it.index() as int;
            proof {
                reveal(SessionModel::auto_all);
                reveal(SessionModel::auto_one);
                assert(all.take(i + 1).drop_last() =~= all.take(i));
                assert(all.take(i + 1).last() == all[i]);
                assert(all[i] == action@);
            }
            match action {
                autoconnect::Action::Connect { seq, attempt } => {
                    match self.page_target(self.auto_control) {
                        Ok((adapter, device)) => {
                            self.auto_epoch = seq;
                            self.emit(Effect::Page { seq, attempt, adapter, device });
                        },
                        Err(why) => {
                            self.emit(Effect::PageRefused { seq, why });
                        },
                    }
                },
                autoconnect::Action::Cancelled(_) => {
                    self.auto_epoch = 0;
                },
                autoconnect::Action::GaveUp(_) => {
                    self.auto_epoch = 0;
                },
                _ => {},
            }
        }
        proof {
            assert(all.take(all.len() as int) =~= all);
        }
    }

    fn autoconnect_event(&mut self, event: autoconnect::Event, t: &Moment)
        requires
            old(self).model().valid(),
            autoconnect::representable(old(self).model().auto, event, t.now),
        ensures
            final(self).model() == old(self).model().auto_event(event, *t),
            final(self).model().valid(),
    {
        proof {
            reveal(SessionModel::auto_event);
        }
        let ghost before = self.model();
        self.auto.rejoin_pending = self.rejoin.is_some();
        let ghost step = autoconnect::step(self.auto, event, t.now);
        let actions = autoconnect::decide(&mut self.auto, event, t.now);
        proof {
            assert(self.model() == SessionModel { auto: step.0, ..before });
            assert(autoconnect::action_views(actions@) == step.1);
        }
        self.auto_all(actions);
        self.publish_link(t);
    }
}

} // verus!
