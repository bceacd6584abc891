//! In-ear detection drives the local media players.
//!
//! [`decide`] takes the state, one event, what the rest of the daemon knows
//! right now and a clock reading, and returns the side effects; the session
//! performs them over MPRIS. Taking a bud out stops the music, putting it back
//! starts it again.
//!
//! # The rule
//!
//! The default is to pause when any bud that was in an ear leaves it: with
//! both buds in, removing one of the two pauses. `pause_on_one_of_two = false`
//! narrows it to the last bud leaving. A bud going into the case counts as
//! leaving the ear.
//!
//! A resume is far more intrusive than a pause: sound starts in a room where
//! the user may not expect it. So a resume needs every one of these:
//!
//! * This daemon performed the pause itself.
//! * The ear state came back to at least the in-ear count that was lost.
//! * No more than [`RESUME_WINDOW`] has passed since that pause.
//! * The user did not touch playback meanwhile.
//! * Local audio is still going to the AirPods.
//!
//! The resume fires at most once, on the settled return to in-ear. If a gate
//! fails at that moment the pending resume is dropped rather than held.
use crate::clock::{elapsed, since, Duration, Instant, MILLISECOND, SECOND};
use crate::config::EarConfig;
use crate::state::{Ear, EarState};
use crate::text::text_view;
use vstd::prelude::*;
use vstd::string::*;

verus! {

/// A changed ear reading must hold this long before it is acted on. The
/// accessory flaps: opening the case, a bud role swap, or a bud reseated can
/// produce two or three reports a few hundred milliseconds apart.
pub const SETTLE: Duration = 700 * MILLISECOND;

/// A pause made because a bud left the ear can only be undone this soon after
/// it. Past that, the user has moved on and a sudden resume would be a
/// surprise.
pub const RESUME_WINDOW: Duration = 300 * SECOND;

/// Something the session observed.
#[derive(Debug, Clone, PartialEq, Eq)]
pub enum Event {
    /// A resolved ear reading, left and right, as published in the snapshot.
    Ear(Ear),
    /// A local MPRIS reading.
    Playback {
        /// Any player is Playing.
        playing: bool,
        /// MPRIS bus name of the playing player.
        player: Option<String>,
    },
    /// The AAP link ended: there is no live ear state any more.
    LinkClosed,
    /// Periodic tick; fires the settle timer and expires a pending resume.
    Tick,
}

/// A side effect for the session to perform.
#[derive(Debug, Clone, PartialEq, Eq)]
pub enum Action {
    /// Pause every local MPRIS player that is Playing.
    PauseLocalPlayers,
    /// Resume the player that was paused when the bud left the ear.
    ResumePlayer {
        /// MPRIS bus name; `None` when it was never learned, in which case
        /// nothing is resumed.
        player: Option<String>,
    },
}

/// An action with its text read as a sequence.
#[verifier::ext_equal]
pub enum ActionModel {
    /// See [`Action::PauseLocalPlayers`].
    PauseLocalPlayers,
    /// See [`Action::ResumePlayer`].
    ResumePlayer {
        /// The player.
        player: Option<Seq<char>>,
    },
}

impl View for Action {
    type V = ActionModel;

    open spec fn view(&self) -> ActionModel {
        match *self {
            Action::PauseLocalPlayers => ActionModel::PauseLocalPlayers,
            Action::ResumePlayer { player } => ActionModel::ResumePlayer {
                player: text_view(player),
            },
        }
    }
}

/// The actions of a list, texts read as sequences.
pub open spec fn action_views(actions: Seq<Action>) -> Seq<ActionModel> {
    actions.map_values(|a: Action| a@)
}

/// What the rest of the daemon knows when an event is folded in.
#[derive(Debug, Clone, Copy, PartialEq, Eq, Structural)]
pub struct Context {
    /// Local audio is going to the AirPods: the link is up, this host owns
    /// them as far as handoff knows, and the card has not been taken off them
    /// for a yield.
    pub audio_on_airpods: bool,
}

impl Default for Context {
    fn default() -> (r: Self)
        ensures
            !r.audio_on_airpods,
    {
        Context { audio_on_airpods: false }
    }
}

/// A pause this module performed, waiting to be undone.
#[derive(Debug, Clone)]
struct Paused {
    at: Instant,
    count: u8,
    player: Option<String>,
    confirming: bool,
}

/// A pause this module performed, as mathematical values.
#[verifier::ext_equal]
pub struct PausedModel {
    /// When the pause was sent.
    pub at: Instant,
    /// In-ear count just before it; the resume needs that many back.
    pub count: u8,
    /// The player that was playing.
    pub player: Option<Seq<char>>,
    /// The pause has not been seen in a playback reading yet, so the next
    /// stop is ours rather than the user's.
    pub confirming: bool,
}

/// Everything [`decide`] remembers, as mathematical values.
#[verifier::ext_equal]
pub struct EarMediaModel {
    /// The configuration in force.
    pub cfg: EarConfig,
    /// Latest settled in-ear count; `None` until the first usable reading.
    pub settled: Option<u8>,
    /// A reading that differs from `settled`, and when it first arrived.
    pub pending: Option<(u8, Instant)>,
    /// Latest local playback reading.
    pub playing: Option<bool>,
    /// Bus name of the player last seen playing.
    pub player: Option<Seq<char>>,
    /// An outstanding pause.
    pub paused: Option<PausedModel>,
}

/// Everything [`decide`] needs to remember.
#[derive(Debug, Clone)]
pub struct EarMediaState {
    cfg: EarConfig,
    settled: Option<u8>,
    pending: Option<(u8, Instant)>,
    playing: Option<bool>,
    player: Option<String>,
    paused: Option<Paused>,
}

/// Buds reported as in an ear. `None` when the reading says nothing at all,
/// which must not read as "both buds were removed".
pub open spec fn in_ear(ear: Ear) -> Option<u8> {
    if ear.left == EarState::Unknown && ear.right == EarState::Unknown {
        None
    } else if ear.left == EarState::In && ear.right == EarState::In {
        Some(2u8)
    } else if ear.left == EarState::In || ear.right == EarState::In {
        Some(1u8)
    } else {
        Some(0u8)
    }
}

/// A state and the actions that led to it.
pub type Step = (EarMediaModel, Seq<ActionModel>);

/// The state alone changes.
pub open spec fn quiet(m: EarMediaModel) -> Step {
    (m, Seq::empty())
}

/// Fewer buds in ears than before: pause what is playing on the AirPods, if
/// the rule asks for it.
pub open spec fn on_removed(
    m: EarMediaModel,
    previous: u8,
    count: u8,
    ctx: Context,
    now: Instant,
) -> Step {
    if m.cfg.auto_pause && (m.cfg.pause_on_one_of_two || count == 0) && m.playing == Some(true)
        && ctx.audio_on_airpods {
        (
            EarMediaModel {
                paused: Some(
                    PausedModel {
                        at: now,
                        count: previous,
                        player: m.player,
                        confirming: true,
                    },
                ),
                ..m
            },
            seq![ActionModel::PauseLocalPlayers],
        )
    } else {
        quiet(m)
    }
}

/// More buds in ears than before: the one moment a pending resume can fire.
/// Short of the count that was lost it stays pending; otherwise it is used up.
pub open spec fn on_returned(m: EarMediaModel, count: u8, ctx: Context, now: Instant) -> Step {
    match m.paused {
        Some(paused) => if count < paused.count {
            quiet(m)
        } else if m.cfg.auto_resume && ctx.audio_on_airpods && elapsed(now, paused.at)
            <= RESUME_WINDOW && m.playing != Some(true) {
            (
                EarMediaModel { paused: None, ..m },
                seq![ActionModel::ResumePlayer { player: paused.player }],
            )
        } else {
            quiet(EarMediaModel { paused: None, ..m })
        },
        None => quiet(m),
    }
}

/// The settle timer and the expiry of a pending resume.
pub open spec fn on_tick(m0: EarMediaModel, ctx: Context, now: Instant) -> Step {
    let m = EarMediaModel {
        paused: if m0.paused matches Some(p) && elapsed(now, p.at) > RESUME_WINDOW {
            None
        } else {
            m0.paused
        },
        ..m0
    };
    match m.pending {
        Some((count, first)) => if elapsed(now, first) < SETTLE {
            quiet(m)
        } else {
            let m1 = EarMediaModel { pending: None, settled: Some(count), ..m };
            match m.settled {
                // The first usable reading is a baseline, not a change.
                None => quiet(m1),
                Some(previous) => if count < previous {
                    on_removed(m1, previous, count, ctx, now)
                } else {
                    on_returned(m1, count, ctx, now)
                },
            }
        },
        None => quiet(m),
    }
}

/// An ear reading: it has to hold for [`SETTLE`] to count.
pub open spec fn on_ear(m: EarMediaModel, ear: Ear, ctx: Context, now: Instant) -> Step {
    match in_ear(ear) {
        None => quiet(m),
        Some(count) => if m.settled == Some(count) {
            quiet(EarMediaModel { pending: None, ..m })
        } else if m.pending matches Some((c, _)) && c == count {
            on_tick(m, ctx, now)
        } else {
            on_tick(EarMediaModel { pending: Some((count, now)), ..m }, ctx, now)
        },
    }
}

/// A playback reading. An edge that is not our own pause landing is the
/// user's, and ends the pending resume.
pub open spec fn on_playback(
    m: EarMediaModel,
    playing: bool,
    player: Option<Seq<char>>,
) -> EarMediaModel {
    let m1 = EarMediaModel {
        playing: Some(playing),
        player: if player is Some {
            player
        } else {
            m.player
        },
        ..m
    };
    match m.paused {
        Some(p) => if m.playing == Some(playing) {
            m1
        } else if !playing && p.confirming {
            EarMediaModel { paused: Some(PausedModel { confirming: false, ..p }), ..m1 }
        } else {
            EarMediaModel { paused: None, ..m1 }
        },
        None => m1,
    }
}

/// The whole state machine: the state after one event, and what to do.
#[verifier::opaque]
pub open spec fn step(m: EarMediaModel, event: Event, ctx: Context, now: Instant) -> Step {
    match event {
        Event::Ear(ear) => on_ear(m, ear, ctx, now),
        Event::Playback { playing, player } => quiet(on_playback(m, playing, text_view(player))),
        Event::LinkClosed => quiet(
            EarMediaModel { settled: None, pending: None, playing: None, ..m },
        ),
        Event::Tick => on_tick(m, ctx, now),
    }
}

spec fn paused_view(p: Option<Paused>) -> Option<PausedModel> {
    match p {
        Some(p) => Some(
            PausedModel {
                at: p.at,
                count: p.count,
                player: text_view(p.player),
                confirming: p.confirming,
            },
        ),
        None => None,
    }
}

impl EarMediaState {
    /// The state as mathematical values.
    pub closed spec fn model(self) -> EarMediaModel {
        EarMediaModel {
            cfg: self.cfg,
            settled: self.settled,
            pending: self.pending,
            playing: self.playing,
            player: text_view(self.player),
            paused: paused_view(self.paused),
        }
    }

    /// Fresh state: no reading, nothing paused.
    pub fn new(cfg: EarConfig) -> (r: Self)
        ensures
            r.model() == (EarMediaModel {
                cfg,
                settled: None,
                pending: None,
                playing: None,
                player: None,
                paused: None,
            }),
    {
        EarMediaState {
            cfg,
            settled: None,
            pending: None,
            playing: None,
            player: None,
            paused: None,
        }
    }

    /// The configuration in force.
    pub fn config(&self) -> (r: EarConfig)
        ensures
            r == self.model().cfg,
    {
        self.cfg
    }

    /// A resume is waiting for the bud to go back in.
    pub fn resume_pending(&self) -> (r: bool)
        ensures
            r == self.model().paused is Some,
    {
        self.paused.is_some()
    }

    /// Buds reported as in an ear.
    pub fn in_ear(ear: Ear) -> (r: Option<u8>)
        ensures
            r == in_ear(ear),
    {
        if ear.left == EarState::Unknown && ear.right == EarState::Unknown {
            return None;
        }
        let left: u8 = if ear.left == EarState::In {
            1
        } else {
            0
        };
        let right: u8 = if ear.right == EarState::In {
            1
        } else {
            0
        };
        Some(left + right)
    }

    /// Fewer buds in ears than before.
    fn removed(&mut self, previous: u8, count: u8, ctx: Context, now: Instant) -> (r: Vec<Action>)
        ensures
            (final(self).model(), action_views(r@)) == on_removed(
                old(self).model(),
                previous,
                count,
                ctx,
                now,
            ),
    {
        let mut out: Vec<Action> = Vec::new();
        proof {
            assert(action_views(out@) =~= Seq::empty());
        }
        if !self.cfg.auto_pause {
            return out;
        }
        // The narrow rule waits for the last bud; the default pauses as soon
        // as one of two leaves.
        if !self.cfg.pause_on_one_of_two && count > 0 {
            return out;
        }
        // Nothing to pause, or the audio is not ours to act on.
        if self.playing != Some(true) || !ctx.audio_on_airpods {
            return out;
        }
        self.paused = Some(
            Paused { at: now, count: previous, player: self.player.clone(), confirming: true },
        );
        out.push(Action::PauseLocalPlayers);
        proof {
            assert(action_views(out@) =~= seq![ActionModel::PauseLocalPlayers]);
        }
        out
    }

    /// More buds in ears than before. Consumes the pending resume either way:
    /// this is the one moment it can fire.
    fn returned(&mut self, count: u8, ctx: Context, now: Instant) -> (r: Vec<Action>)
        ensures
            (final(self).model(), action_views(r@)) == on_returned(
                old(self).model(),
                count,
                ctx,
                now,
            ),
    {
        let mut out: Vec<Action> = Vec::new();
        proof {
            assert(action_views(out@) =~= Seq::empty());
        }
        let paused = match self.paused.take() {
            Some(p) => p,
            None => {
                return out;
            },
        };
        if count < paused.count {
            // Only part way back: one of two buds, when two were in.
            self.paused = Some(paused);
            return out;
        }
        if !self.cfg.auto_resume || !ctx.audio_on_airpods || since(now, paused.at) > RESUME_WINDOW
            || self.playing == Some(true) {
            return out;
        }
        let ghost player = text_view(paused.player);
        out.push(Action::ResumePlayer { player: paused.player });
        proof {
            assert(action_views(out@) =~= seq![ActionModel::ResumePlayer { player }]);
        }
        out
    }

    /// Fire the settle timer and expire a pending resume.
    fn tick(&mut self, ctx: Context, now: Instant) -> (r: Vec<Action>)
        ensures
            (final(self).model(), action_views(r@)) == on_tick(old(self).model(), ctx, now),
    {
        let out: Vec<Action> = Vec::new();
        proof {
            assert(action_views(out@) =~= Seq::empty());
        }
        let expired = match &self.paused {
            Some(p) => since(now, p.at) > RESUME_WINDOW,
            None => false,
        };
        if expired {
            self.paused = None;
        }
        let (count, first) = match self.pending {
            Some(p) => p,
            None => {
                return out;
            },
        };
        if since(now, first) < SETTLE {
            return out;
        }
        self.pending = None;
        let settled = self.settled;
        self.settled = Some(count);
        // The first usable reading is a baseline, not a change: connecting
        // with the buds already out of the ears must not pause anything.
        match settled {
            None => out,
            Some(previous) => if count < previous {
                self.removed(previous, count, ctx, now)
            } else {
                self.returned(count, ctx, now)
            },
        }
    }

    /// A playback edge the user may have caused.
    fn playback(&mut self, playing: bool, player: Option<String>)
        ensures
            final(self).model() == on_playback(old(self).model(), playing, text_view(player)),
    {
        if player.is_some() {
            self.player = player;
        }
        let previous = self.playing;
        self.playing = Some(playing);
        if previous == Some(playing) {
            return ;
        }
        match self.paused.take() {
            None => {},
            Some(p) => {
                if !playing && p.confirming {
                    // Our own pause landing.
                    self.paused = Some(
                        Paused { at: p.at, count: p.count, player: p.player, confirming: false },
                    );
                }
                // Otherwise the user started a player, or paused one, while the
                // bud is out: they are in control, and nothing is put back.

            },
        }
    }
}

/// Fold one event into the state and return what to do about it.
pub fn decide(s: &mut EarMediaState, event: Event, ctx: Context, now: Instant) -> (r: Vec<Action>)
    ensures
        (final(s).model(), action_views(r@)) == step(old(s).model(), event, ctx, now),
{
    let out: Vec<Action> = Vec::new();
    proof {
        reveal(step);
        assert(action_views(out@) =~= Seq::empty());
    }
    match event {
        Event::Ear(ear) => {
            let count: u8 = match EarMediaState::in_ear(ear) {
                Some(n) => n,
                None => {
                    return out;
                },
            };
            if s.settled == Some(count) {
                // Back to where it was: the flap never happened.
                s.pending = None;
                return out;
            }
            let known = match s.pending {
                Some((c, _)) => c == count,
                None => false,
            };
            if !known {
                s.pending = Some((count, now));
            }
            // The settle time has to pass first; a tick fires it.
            s.tick(ctx, now)
        },
        Event::Playback { playing, player } => {
            s.playback(playing, player);
            out
        },
        Event::LinkClosed => {
            // A pending resume survives: it is bounded by `RESUME_WINDOW`.
            s.settled = None;
            s.pending = None;
            s.playing = None;
            out
        },
        Event::Tick => s.tick(ctx, now),
    }
}

// ---------------------------------------------------------------------------
// What the machine promises
// ---------------------------------------------------------------------------

/// At most one action comes out of an event, and only from a settled ear
/// reading: never from playback, a closed link, or a first reading.
pub proof fn only_a_settled_change_acts(m: EarMediaModel, event: Event, ctx: Context, now: Instant)
    ensures
        step(m, event, ctx, now).1.len() <= 1,
        step(m, event, ctx, now).1.len() == 1 ==> {
            &&& event is Ear || event is Tick
            &&& m.settled is Some
            &&& ctx.audio_on_airpods
            &&& m.pending matches Some((_, first)) && elapsed(now, first) >= SETTLE
        },
{
    reveal(step);
}

/// A pause needs playing audio on the AirPods and a settled loss of an in-ear
/// bud, and is remembered with the count that was lost.
pub proof fn pause_is_remembered(m: EarMediaModel, event: Event, ctx: Context, now: Instant)
    requires
        step(m, event, ctx, now).1 == seq![ActionModel::PauseLocalPlayers],
    ensures
        m.cfg.auto_pause,
        m.playing == Some(true),
        m.settled is Some,
        step(m, event, ctx, now).0.settled is Some,
        step(m, event, ctx, now).0.settled->0 < m.settled->0,
        m.cfg.pause_on_one_of_two || step(m, event, ctx, now).0.settled == Some(0u8),
        step(m, event, ctx, now).0.paused == Some(
            PausedModel { at: now, count: m.settled->0, player: m.player, confirming: true },
        ),
{
    reveal(step);
    assert(step(m, event, ctx, now).1[0] == ActionModel::PauseLocalPlayers);
}

/// A resume undoes this daemon's own pause, no more than [`RESUME_WINDOW`] ago,
/// of the player that was paused, with at least the lost count back in the
/// ears and nothing playing; and it is used up.
pub proof fn resume_undoes_our_pause(
    m: EarMediaModel,
    event: Event,
    ctx: Context,
    now: Instant,
    player: Option<Seq<char>>,
)
    requires
        step(m, event, ctx, now).1 == seq![(ActionModel::ResumePlayer { player })],
    ensures
        m.cfg.auto_resume,
        ctx.audio_on_airpods,
        m.playing != Some(true),
        m.paused is Some,
        m.paused->0.player == player,
        elapsed(now, m.paused->0.at) <= RESUME_WINDOW,
        step(m, event, ctx, now).0.settled is Some,
        step(m, event, ctx, now).0.settled->0 >= m.paused->0.count,
        step(m, event, ctx, now).0.paused is None,
{
    reveal(step);
    assert(step(m, event, ctx, now).1[0] == (ActionModel::ResumePlayer { player }));
}

/// A pending resume comes only from a pause made in the same step, and ends
/// with the window.
pub proof fn pending_resume_is_ours(m: EarMediaModel, event: Event, ctx: Context, now: Instant)
    ensures
        m.paused is None && step(m, event, ctx, now).0.paused is Some ==> step(
            m,
            event,
            ctx,
            now,
        ).1 == seq![ActionModel::PauseLocalPlayers],
        event is Tick && m.paused is Some && elapsed(now, m.paused->0.at) > RESUME_WINDOW ==> (
        step(m, event, ctx, now).0.paused is None || step(m, event, ctx, now).0.paused->0.at
            == now),
        (event matches Event::Playback { playing, .. } && m.paused is Some && m.playing != Some(
            playing,
        ) && (playing || !m.paused->0.confirming)) ==> step(m, event, ctx, now).0.paused is None,
{
    reveal(step);
}

/// Playback never makes a resume pending. A repeated reading leaves a pending
/// one alone, the first stop behind this daemon's own pause confirms it, and
/// any other change is the user's and ends it. A reading without a player
/// keeps the one known before.
pub proof fn the_user_ends_a_pending_resume(
    m: EarMediaModel,
    playing: bool,
    player: Option<String>,
    ctx: Context,
    now: Instant,
)
    ensures
        ({
            let (after, actions) = step(m, Event::Playback { playing, player }, ctx, now);
            &&& actions == Seq::<ActionModel>::empty()
            &&& after.playing == Some(playing)
            &&& after.player == (if player is Some {
                text_view(player)
            } else {
                m.player
            })
            &&& after.paused == (match m.paused {
                Some(p) => if m.playing == Some(playing) {
                    Some(p)
                } else if p.confirming && !playing {
                    Some(PausedModel { confirming: false, ..p })
                } else {
                    None
                },
                None => None,
            })
        }),
{
    reveal(step);
}

/// A reading that says nothing changes nothing, and one that returns to the
/// settled count before it settled is forgotten.
pub proof fn a_flap_is_forgotten(m: EarMediaModel, ear: Ear, ctx: Context, now: Instant)
    ensures
        in_ear(ear) is None ==> on_ear(m, ear, ctx, now) == quiet(m),
        in_ear(ear) is Some && in_ear(ear) == m.settled ==> on_ear(m, ear, ctx, now) == quiet(
            EarMediaModel { pending: None, ..m },
        ),
{
    reveal(step);
}

} // verus!
