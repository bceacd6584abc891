//! When the AirPods are paged.
use super::age;
use crate::autoconnect::{
    model_number, qualifying, step, ActionModel, AutoConnectState, Event, Pending,
};
use crate::clock::Instant;
use crate::config::AutoconnectConfig;
use crate::rejoin::{Outcome, Reason};
use crate::text::{hex_below, trimmed};
use vstd::prelude::*;
use vstd::string::*;

verus! {

/// What the configuration fixes.
pub open spec fn same_rules(s: AutoConnectState, after: AutoConnectState) -> bool {
    after.enabled == s.enabled && after.min_rssi == s.min_rssi && after.rejoin_pending
        == s.rejoin_pending && after.settle == s.settle && after.absence == s.absence
        && after.fallback_first == s.fallback_first && after.fallback_interval
        == s.fallback_interval && after.fallback_budget == s.fallback_budget
}

/// Since when the AirPods are away as far as the fallback goes: a daemon that
/// starts without them counts from its first clock reading.
pub open spec fn away_from(s: AutoConnectState, now: Instant) -> Option<Instant> {
    if s.fallback_start && !s.connected {
        Some(now)
    } else {
        s.fallback_from
    }
}

/// Configured seconds are seconds: nothing is rounded and nothing is cut.
pub proof fn configured_seconds_are_seconds(config: AutoconnectConfig)
    requires
        config.fallback_minutes * 60 <= u64::MAX,
    ensures
        ({
            let s = AutoConnectState::fresh(config);
            &&& s.enabled == config.enabled && s.min_rssi == config.min_rssi
            &&& s.settle == config.settle_seconds * 1_000_000_000
            &&& s.absence == config.absence_seconds * 1_000_000_000
            &&& s.fallback_first == config.fallback_first_seconds * 1_000_000_000
            &&& s.fallback_interval == config.fallback_interval_seconds * 1_000_000_000
            &&& s.fallback_budget == config.fallback_minutes * 60_000_000_000
            &&& s.pending is None && s.last_seen is None && !s.connected && !s.disarmed
            &&& !s.episode && !s.rejoin_pending && s.seq == 0 && s.fallback_start
            &&& s.fallback_from is None && s.fallback_next is None
        }),
{
}

/// The watched model is the one its id names, up to four hexadecimal digits,
/// and 201B where the id names none.
pub proof fn the_watched_model_is_the_named_one(id: Seq<char>)
    ensures
        hex_below(trimmed(id), 65536) is Some ==> model_number(id) == hex_below(
            trimmed(id),
            65536,
        )->0,
        hex_below(trimmed(id), 65536) is None ==> model_number(id) == 0x201b,
{
}

/// An advert is the watched model's outside pairing mode by four bytes.
pub proof fn a_qualifying_advert(data: Seq<u8>, model: Seq<u8>)
    requires
        model.len() == 2,
    ensures
        qualifying(data, model) <==> data.len() >= 5 && data[0] == 0x07 && data[2] == 0x01
            && data[3] == model[0] && data[4] == model[1],
{
    if data.len() >= 5 {
        assert(data.subrange(3, 5) =~= seq![data[3], data[4]]);
        assert(model =~= seq![model[0], model[1]]);
        if data.subrange(3, 5) == model {
            assert(data.subrange(3, 5)[0] == model[0] && data.subrange(3, 5)[1] == model[1]);
        }
    }
}

/// An advert after an absence begins one sequence, due when the settle time is
/// over, unless the AirPods are here already or a rejoin is pending; it arms a
/// disarmed machine. A weak advert is no advert, and one that follows no
/// absence, or comes while something is pending, only counts as the latest.
pub proof fn an_advert_after_an_absence_begins(
    s: AutoConnectState,
    rssi: Option<i16>,
    now: Instant,
)
    requires
        s.seq < u64::MAX,
        now + s.settle <= u128::MAX,
    ensures
        ({
            let (after, actions) = step(s, Event::Seen { rssi }, now);
            let weak = rssi is Some && rssi->0 < s.min_rssi;
            let fresh = s.pending is None && (s.last_seen is None || age(now, s.last_seen->0)
                >= s.absence);
            let counts = s.enabled && !weak;
            let begins = counts && fresh && !s.connected && !s.rejoin_pending;
            let rearmed = if s.disarmed {
                seq![ActionModel::Rearmed]
            } else {
                Seq::empty()
            };
            &&& same_rules(s, after)
            &&& after.connected == s.connected
            &&& after.fallback_from == away_from(s, now) && after.fallback_next == s.fallback_next
            &&& !s.enabled ==> actions.len() == 0
            &&& s.enabled && weak ==> actions == seq![ActionModel::Skipped("rssi_below_min"@)]
            &&& counts && !fresh ==> actions.len() == 0
            &&& counts && fresh && s.connected ==> actions == rearmed.push(
                ActionModel::Skipped("already_connected"@),
            )
            &&& counts && fresh && !s.connected && s.rejoin_pending ==> actions == rearmed.push(
                ActionModel::Skipped("rejoin_pending"@),
            )
            &&& begins ==> actions == rearmed.push(
                ActionModel::EpisodeStarted { rssi, delay: s.settle },
            )
            &&& after.last_seen == (if counts {
                Some(now)
            } else {
                s.last_seen
            })
            &&& after.disarmed == (s.disarmed && !(counts && fresh))
            &&& after.pending == (if begins {
                Some(
                    Pending {
                        seq: (s.seq + 1) as u64,
                        attempt: 1,
                        due: (now + s.settle) as u128,
                        in_flight: false,
                        fallback: false,
                    },
                )
            } else {
                s.pending
            })
            &&& after.seq == (if begins {
                s.seq + 1
            } else {
                s.seq as int
            })
        }),
{
    reveal(step);
}

/// A connect that is due starts, where nothing speaks against it; a retry
/// needs an advert of the last ten seconds. What speaks against it ends the
/// sequence, in these words.
pub proof fn a_due_connect_starts(s: AutoConnectState, p: Pending, now: Instant)
    requires
        s.pending == Some(p),
    ensures
        ({
            let (after, actions) = step(s, Event::Tick, now);
            let stale = p.attempt > 1 && (s.last_seen is None || age(now, s.last_seen->0)
                > 10_000_000_000);
            let why = if !s.enabled {
                Some("disabled"@)
            } else if s.connected {
                Some("already_connected"@)
            } else if s.rejoin_pending {
                Some("rejoin_pending"@)
            } else if stale {
                Some("stale_adverts"@)
            } else {
                None
            };
            let due = !p.in_flight && now >= p.due;
            &&& same_rules(s, after)
            &&& after.last_seen == s.last_seen && after.disarmed == s.disarmed && after.connected
                == s.connected && after.seq == s.seq
            &&& !due ==> actions.len() == 0 && after.pending == s.pending
            &&& due && why is Some ==> actions == seq![ActionModel::Cancelled(why->0)]
                && after.pending is None
            &&& due && why is None ==> actions == seq![
                (ActionModel::Connect { seq: p.seq, attempt: p.attempt }),
            ] && after.pending == Some(Pending { in_flight: true, ..p })
        }),
{
    reveal(step);
}

/// With nothing pending, a page without an advert comes when its time has
/// come and the budget of the away period is not spent: the first after the
/// first wait, each later one after the interval.
pub proof fn a_page_without_an_advert(s: AutoConnectState, now: Instant)
    requires
        s.pending is None,
        s.seq < u64::MAX,
        now + s.fallback_interval <= u128::MAX,
    ensures
        ({
            let (after, actions) = step(s, Event::Tick, now);
            let from = away_from(s, now);
            let due = from is Some && s.fallback_budget > 0 && age(now, from->0)
                <= s.fallback_budget && (if s.fallback_next is Some {
                now >= s.fallback_next->0
            } else {
                now >= from->0 + s.fallback_first
            });
            let page = due && s.enabled && !s.connected && !s.disarmed && !s.rejoin_pending;
            &&& same_rules(s, after)
            &&& after.last_seen == s.last_seen && after.disarmed == s.disarmed && after.connected
                == s.connected
            &&& !page ==> actions.len() == 0 && after.pending is None && after.seq == s.seq
                && after.fallback_next == s.fallback_next
            &&& page ==> actions.len() == 2 && (actions[0] matches ActionModel::FallbackPage {
                away,
                next,
            } && away == age(now, from->0) && next == s.fallback_interval) && actions[1] == (
            ActionModel::Connect { seq: (s.seq + 1) as u64, attempt: 1 }) && after.pending == Some(
                Pending {
                    seq: (s.seq + 1) as u64,
                    attempt: 1,
                    due: now,
                    in_flight: true,
                    fallback: true,
                },
            ) && after.seq == s.seq + 1 && after.fallback_next == Some(
                (now + s.fallback_interval) as u128,
            )
            &&& after.fallback_from == from
        }),
{
    reveal(step);
}

/// A link that comes up ends what is pending and the fallback; it counts as
/// the latest sign of the AirPods.
pub proof fn a_link_that_comes_up(s: AutoConnectState, now: Instant)
    ensures
        ({
            let (after, actions) = step(s, Event::LocalConnected, now);
            &&& same_rules(s, after)
            &&& after.connected && after.pending is None && after.last_seen == Some(now)
            &&& after.fallback_from is None && after.fallback_next is None
            &&& after.disarmed == s.disarmed && after.seq == s.seq
            &&& actions == (match s.pending {
                None => Seq::empty(),
                Some(p) => if p.in_flight {
                    seq![ActionModel::Connected]
                } else {
                    seq![ActionModel::Cancelled("already_connected"@)]
                },
            })
        }),
{
    reveal(step);
}

/// A link that goes down ends what is pending. A drop by the AirPods or by
/// time starts the fallback; a local one disarms, and no other reason but an
/// unknown one leaves the fallback as it was.
pub proof fn a_link_that_goes_down(s: AutoConnectState, reason: Reason, now: Instant)
    ensures
        ({
            let (after, actions) = step(s, Event::LocalDisconnected { reason }, now);
            let ended = if s.pending is Some {
                seq![ActionModel::Cancelled("disconnected"@)]
            } else {
                Seq::empty()
            };
            &&& same_rules(s, after)
            &&& !after.connected && after.pending is None && after.last_seen == Some(now)
            &&& after.seq == s.seq
            &&& after.disarmed == (s.disarmed || reason == Reason::Local)
            &&& actions == (if reason == Reason::Local && !s.disarmed {
                ended.push(ActionModel::Disarmed("local_disconnect"@))
            } else {
                ended
            })
            &&& reason == Reason::Remote || reason == Reason::Timeout ==> after.fallback_from
                == Some(now) && after.fallback_next is None
            &&& reason == Reason::Unknown ==> after.fallback_from == away_from(s, now)
                && after.fallback_next == s.fallback_next
            &&& reason == Reason::Local || reason == Reason::Authentication || reason
                == Reason::Suspend ==> after.fallback_from is None && after.fallback_next is None
        }),
{
    reveal(step);
    let (after, actions) = step(s, Event::LocalDisconnected { reason }, now);
    let ended = if s.pending is Some {
        seq![ActionModel::Cancelled("disconnected"@)]
    } else {
        Seq::<ActionModel>::empty()
    };
    if reason == Reason::Local {
        if s.disarmed {
            assert(actions =~= ended);
        } else {
            assert(actions =~= ended.push(ActionModel::Disarmed("local_disconnect"@)));
        }
    }
}

/// A command of the user ends what is pending and disarms.
pub proof fn a_command_disarms(s: AutoConnectState, now: Instant)
    ensures
        ({
            let (after, actions) = step(s, Event::ManualCommand, now);
            let ended = if s.pending is Some {
                seq![ActionModel::Cancelled("manual_command"@)]
            } else {
                Seq::empty()
            };
            &&& same_rules(s, after)
            &&& after.disarmed && after.pending is None && after.connected == s.connected
                && after.last_seen == s.last_seen && after.seq == s.seq && after.fallback_next
                == s.fallback_next
            &&& actions == (if s.disarmed {
                ended
            } else {
                ended.push(ActionModel::Disarmed("manual_command"@))
            })
        }),
{
    reveal(step);
}

/// The seconds before the next connect of a sequence.
pub open spec fn wait_after(attempt: u8) -> int {
    if attempt == 1 {
        5
    } else if attempt == 2 {
        15
    } else {
        45
    }
}

/// How a connect ended decides what follows: a link ends the sequence, and so
/// does one that came about otherwise; a page without an advert is not
/// repeated; any other is tried again after five, fifteen and forty-five
/// seconds, and given up at the fourth.
pub proof fn a_result_decides(
    s: AutoConnectState,
    p: Pending,
    outcome: Outcome,
    why: Seq<char>,
    now: Instant,
)
    requires
        s.pending == Some(p),
        p.in_flight,
        1 <= p.attempt <= 4,
        now + 45_000_000_000 <= u128::MAX,
        why == (match outcome {
            Outcome::Connected => "connected"@,
            Outcome::Busy => "br-connection-busy"@,
            Outcome::Failed(e) => e@,
            Outcome::NotReady(e) => e@,
        }),
    ensures
        ({
            let (after, actions) = step(s, Event::ConnectFinished { seq: p.seq, outcome }, now);
            let linked = outcome is NotReady && why == "connected_by_other_means"@;
            let elsewhere = linked || (outcome is NotReady && why == "superseded"@);
            let tried = !(outcome is Connected) && !elsewhere && !p.fallback;
            &&& same_rules(s, after)
            &&& after.seq == s.seq && after.disarmed == s.disarmed && after.last_seen == s.last_seen
            &&& after.connected == (s.connected || outcome is Connected)
            &&& outcome is Connected ==> actions == seq![ActionModel::Connected] && after.pending
                is None
            &&& elsewhere ==> actions == seq![ActionModel::Cancelled(why)] && after.pending is None
            &&& !(outcome is Connected) && !elsewhere && p.fallback ==> actions == seq![
                ActionModel::FallbackFailed(why),
            ] && after.pending is None
            &&& p.fallback && (outcome is Connected || linked) ==> after.fallback_from is None
                && after.fallback_next is None
            &&& !(p.fallback && (outcome is Connected || linked)) ==> after.fallback_from
                == away_from(s, now) && after.fallback_next == s.fallback_next
            &&& tried && p.attempt == 4 ==> actions == seq![
                ActionModel::GaveUp("4 connects did not take: "@ + why),
            ] && after.pending is None
            &&& tried && p.attempt < 4 ==> actions.len() == 1 && (
            actions[0] matches ActionModel::Retry { attempt, wait } && attempt == p.attempt + 1
                && wait == wait_after(p.attempt) * 1_000_000_000) && (after.pending matches Some(q)
                && q.seq == p.seq && q.attempt == p.attempt + 1 && !q.in_flight && !q.fallback
                && q.due == now + wait_after(p.attempt) * 1_000_000_000)
        }),
{
    reveal(step);
}

} // verus!
