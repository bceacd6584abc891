//! What ear detection does to the players.
use super::age;
use crate::clock::Instant;
use crate::ear_media::{step, ActionModel, Context, EarMediaModel, Event, PausedModel};
use crate::state::{Ear, EarState};
use vstd::prelude::*;

verus! {

/// How many buds a reading says are in an ear.
pub open spec fn buds(ear: Ear) -> int {
    (if ear.left == EarState::In {
        1int
    } else {
        0
    }) + (if ear.right == EarState::In {
        1int
    } else {
        0
    })
}

/// The reading says nothing of either bud.
pub open spec fn silent(ear: Ear) -> bool {
    ear.left == EarState::Unknown && ear.right == EarState::Unknown
}

/// A reading counts buds, and which side they are on does not matter: a lone
/// right bud is a bud in an ear as much as a lone left one.
pub proof fn sides_count_alike(
    m: EarMediaModel,
    a: EarState,
    b: EarState,
    ctx: Context,
    now: Instant,
)
    ensures
        step(m, Event::Ear(Ear { left: a, right: b }), ctx, now) == step(
            m,
            Event::Ear(Ear { left: b, right: a }),
            ctx,
            now,
        ),
{
    reveal(step);
}

/// A reading that says nothing changes nothing. Any other waits with its
/// number of buds, from the moment that number was first read, unless it is
/// the number that holds already; until it has waited it does nothing.
pub proof fn a_reading_waits_with_its_count(
    m: EarMediaModel,
    ear: Ear,
    ctx: Context,
    now: Instant,
)
    ensures
        ({
            let (after, actions) = step(m, Event::Ear(ear), ctx, now);
            let known = m.settled matches Some(n) && n == buds(ear);
            let waiting = m.pending matches Some((n, _)) && n == buds(ear);
            &&& silent(ear) ==> after == m && actions.len() == 0
            &&& !silent(ear) && known ==> after == (EarMediaModel { pending: None, ..m })
                && actions.len() == 0
            &&& !silent(ear) && !known && waiting ==> (after, actions) == step(
                m,
                Event::Tick,
                ctx,
                now,
            )
            &&& !silent(ear) && !known && !waiting ==> {
                &&& actions.len() == 0
                &&& after.pending matches Some((n, t)) && n == buds(ear) && t == now
                &&& after.settled == m.settled
                &&& after.playing == m.playing
                &&& after.player == m.player
                &&& after.cfg == m.cfg
                &&& after.paused == (if m.paused matches Some(p) && age(now, p.at)
                    > 300_000_000_000 {
                    None
                } else {
                    m.paused
                })
            }
        }),
{
    reveal(step);
}

/// A count that has waited seven tenths of a second settles, and no sooner.
/// Fewer buds than before pause what plays on the AirPods, where the
/// configuration asks for it; no fewer than were lost resume what this daemon
/// paused at most five minutes ago, while nothing plays. Nothing else acts.
pub proof fn a_settled_count_acts(m: EarMediaModel, ctx: Context, now: Instant)
    ensures
        ({
            let (after, actions) = step(m, Event::Tick, ctx, now);
            let due = m.pending matches Some((_, t)) && age(now, t) >= 700_000_000;
            let n = (m.pending->Some_0).0;
            let fewer = m.settled matches Some(before) && n < before;
            let pause = due && fewer && m.cfg.auto_pause && (m.cfg.pause_on_one_of_two || n == 0)
                && m.playing == Some(true) && ctx.audio_on_airpods;
            let late = m.paused matches Some(p) && age(now, p.at) > 300_000_000_000;
            let back = due && m.settled is Some && !fewer && !late && m.paused is Some && n
                >= m.paused->0.count;
            let resume = back && m.cfg.auto_resume && ctx.audio_on_airpods && m.playing != Some(
                true,
            );
            &&& actions == (if pause {
                seq![ActionModel::PauseLocalPlayers]
            } else if resume {
                seq![ActionModel::ResumePlayer { player: m.paused->0.player }]
            } else {
                Seq::empty()
            })
            &&& after.settled == (if due {
                Some(n)
            } else {
                m.settled
            })
            &&& after.pending == (if due {
                None
            } else {
                m.pending
            })
            &&& after.paused == (if pause {
                Some(
                    PausedModel {
                        at: now,
                        count: m.settled->0,
                        player: m.player,
                        confirming: true,
                    },
                )
            } else if late || back {
                None
            } else {
                m.paused
            })
            &&& after.cfg == m.cfg && after.playing == m.playing && after.player == m.player
        }),
{
    reveal(step);
    let (after, actions) = step(m, Event::Tick, ctx, now);
    if actions.len() == 0 {
        assert(actions =~= Seq::empty());
    }
}

/// Taking a bud out of an ear pauses, whichever side it was: two readings,
/// the second with fewer buds and held for the settle time, while a player
/// plays on the AirPods.
pub proof fn a_bud_taken_out_pauses(
    m: EarMediaModel,
    worn: Ear,
    left: Ear,
    ctx: Context,
    now: Instant,
    later: Instant,
)
    requires
        m.settled matches Some(n) && n == buds(worn),
        !silent(left),
        buds(left) < buds(worn),
        m.pending is None,
        m.playing == Some(true),
        m.cfg.auto_pause,
        m.cfg.pause_on_one_of_two || buds(left) == 0,
        ctx.audio_on_airpods,
        later >= now + 700_000_000,
    ensures
        step(step(m, Event::Ear(left), ctx, now).0, Event::Tick, ctx, later).1 == seq![
            ActionModel::PauseLocalPlayers,
        ],
{
    a_reading_waits_with_its_count(m, left, ctx, now);
    a_settled_count_acts(step(m, Event::Ear(left), ctx, now).0, ctx, later);
}

/// Putting the bud back resumes the player that was paused, within five
/// minutes and with nothing else playing.
pub proof fn a_bud_put_back_resumes(
    m: EarMediaModel,
    worn: Ear,
    ctx: Context,
    now: Instant,
    later: Instant,
)
    requires
        m.paused is Some,
        m.settled is Some,
        m.settled->0 < m.paused->0.count,
        buds(worn) >= m.paused->0.count,
        m.pending is None,
        m.playing != Some(true),
        m.cfg.auto_resume,
        ctx.audio_on_airpods,
        m.paused->0.at <= now,
        now + 700_000_000 <= later <= m.paused->0.at + 300_000_000_000,
    ensures
        step(step(m, Event::Ear(worn), ctx, now).0, Event::Tick, ctx, later).1 == seq![
            (ActionModel::ResumePlayer { player: m.paused->0.player }),
        ],
        step(step(m, Event::Ear(worn), ctx, now).0, Event::Tick, ctx, later).0.paused is None,
{
    a_reading_waits_with_its_count(m, worn, ctx, now);
    a_settled_count_acts(step(m, Event::Ear(worn), ctx, now).0, ctx, later);
}

/// A closed link forgets the readings and keeps a pending resume.
pub proof fn a_closed_link_keeps_a_pending_resume(m: EarMediaModel, ctx: Context, now: Instant)
    ensures
        ({
            let (after, actions) = step(m, Event::LinkClosed, ctx, now);
            &&& actions.len() == 0
            &&& after.settled is None && after.pending is None && after.playing is None
            &&& after.paused == m.paused && after.player == m.player && after.cfg == m.cfg
        }),
{
    reveal(step);
}

/// A playback reading is noted and asks for nothing. A pending resume stays
/// while the reading says what was known, and while our own pause lands, once;
/// any other change is the user's and ends it.
pub proof fn a_playback_reading_is_noted(
    m: EarMediaModel,
    playing: bool,
    player: Option<String>,
    ctx: Context,
    now: Instant,
)
    ensures
        ({
            let (after, actions) = step(m, Event::Playback { playing, player }, ctx, now);
            &&& actions.len() == 0
            &&& after.playing == Some(playing)
            &&& player is Some ==> after.player == Some(player->0@)
            &&& player is None ==> after.player == m.player
            &&& after.settled == m.settled && after.pending == m.pending && after.cfg == m.cfg
            &&& m.paused is None ==> after.paused is None
            &&& m.paused is Some && m.playing == Some(playing) ==> after.paused == m.paused
            &&& m.paused is Some && m.playing != Some(playing) && !playing && m.paused->0.confirming
                ==> after.paused == Some(PausedModel { confirming: false, ..m.paused->0 })
            &&& m.paused is Some && m.playing != Some(playing) && (playing
                || !m.paused->0.confirming) ==> after.paused is None
        }),
{
    reveal(step);
}

} // verus!
