//! What the supervisor makes of the machines it runs.
use super::age;
use crate::aap::codec::FeaturesVariant;
use crate::aap::session::command::{AfterSend, Claim};
use crate::aap::session::opening::{Opening, OpeningModel, Report};
use crate::aap::session::tick::LinkStep;
use crate::aap::session::{
    closed_keeps, idle_rule, variant_for, Awaited, DialKind, EffectModel, IdleAction, Moment,
    SessionModel,
};
use crate::audio_route::RouteMode;
use crate::autoconnect;
use crate::autoconnect::AutoConnectState;
use crate::bluez::ClaimEnd;
use crate::clock::Instant;
use crate::ear_media;
use crate::handoff;
use crate::handoff::HandoffModel;
use crate::mpris::MprisModel;
use crate::rejoin;
use crate::state::LinkReason;
use crate::store::Update;
use vstd::prelude::*;
use vstd::string::*;

verus! {

// ---------------------------------------------------------------------------
// Events for the three machines
// ---------------------------------------------------------------------------

/// The action waits to be performed.
pub open spec fn waits(action: handoff::ActionModel) -> bool {
    !(action is Record) && !(action is StreamNotStarted)
}

/// The published record after a list of actions: that of the latest one.
pub open spec fn recorded(
    before: Option<handoff::RecordedModel>,
    actions: Seq<handoff::ActionModel>,
    at: Seq<char>,
) -> Option<handoff::RecordedModel>
    decreases actions.len(),
{
    if actions.len() == 0 {
        before
    } else {
        match actions.last() {
            handoff::ActionModel::Record { kind, peer } => Some(
                handoff::RecordedModel {
                    kind,
                    at,
                    peer: if peer is Some {
                        Some(peer->0.text())
                    } else {
                        None
                    },
                },
            ),
            _ => recorded(before, actions.drop_last(), at),
        }
    }
}

proof fn lemma_filter_last(
    actions: Seq<handoff::ActionModel>,
    kept: spec_fn(handoff::ActionModel) -> bool,
)
    ensures
        actions.len() == 0 ==> actions.filter(kept) == Seq::<handoff::ActionModel>::empty(),
        actions.len() > 0 ==> actions.filter(kept) == (if kept(actions.last()) {
            actions.drop_last().filter(kept).push(actions.last())
        } else {
            actions.drop_last().filter(kept)
        }),
{
    reveal(Seq::filter);
}

/// The effects of a list of actions: a silent stream is said.
pub open spec fn said(actions: Seq<handoff::ActionModel>) -> Seq<EffectModel> {
    actions.filter(|a: handoff::ActionModel| a is StreamNotStarted).map_values(
        |a: handoff::ActionModel| EffectModel::StreamNotStarted,
    )
}

/// The actions of a list that wait to be performed, in order.
pub open spec fn waiting(actions: Seq<handoff::ActionModel>) -> Seq<handoff::ActionModel> {
    actions.filter(|a: handoff::ActionModel| waits(a))
}

pub(crate) proof fn lemma_said_last(actions: Seq<handoff::ActionModel>)
    ensures
        actions.len() == 0 ==> said(actions) == Seq::<EffectModel>::empty() && waiting(actions)
            == Seq::<handoff::ActionModel>::empty(),
        actions.len() > 0 ==> said(actions) == (if actions.last() is StreamNotStarted {
            said(actions.drop_last()).push(EffectModel::StreamNotStarted)
        } else {
            said(actions.drop_last())
        }),
        actions.len() > 0 ==> waiting(actions) == (if waits(actions.last()) {
            waiting(actions.drop_last()).push(actions.last())
        } else {
            waiting(actions.drop_last())
        }),
{
    lemma_filter_last(actions, |a: handoff::ActionModel| a is StreamNotStarted);
    lemma_filter_last(actions, |a: handoff::ActionModel| waits(a));
    if actions.len() == 0 {
        assert(said(actions) =~= Seq::empty());
    } else if actions.last() is StreamNotStarted {
        assert(said(actions) =~= said(actions.drop_last()).push(EffectModel::StreamNotStarted));
    }
}

/// What is left of a state once actions were absorbed.
spec fn absorbed(
    m: SessionModel,
    actions: Seq<handoff::ActionModel>,
    at: Seq<char>,
) -> SessionModel {
    SessionModel {
        handoff: HandoffModel {
            last_event: recorded(m.handoff.last_event, actions, at),
            ..m.handoff
        },
        queued: m.queued + waiting(actions),
        effects: m.effects + said(actions),
        ..m
    }
}

proof fn lemma_absorb_last(m: SessionModel, actions: Seq<handoff::ActionModel>, at: Seq<char>)
    requires
        actions.len() > 0,
    ensures
        absorbed(m, actions.drop_last(), at).absorb_one(actions.last(), at) == absorbed(
            m,
            actions,
            at,
        ),
{
    reveal(SessionModel::absorb_one);
    lemma_said_last(actions);
    let head = actions.drop_last();
    let last = actions.last();
    assert(m.queued + waiting(head).push(last) =~= (m.queued + waiting(head)).push(last));
    assert(m.effects + said(head).push(EffectModel::StreamNotStarted) =~= (m.effects + said(
        head,
    )).push(EffectModel::StreamNotStarted));
}

proof fn lemma_absorb(m: SessionModel, actions: Seq<handoff::ActionModel>, at: Seq<char>)
    ensures
        m.absorb(actions, at) == absorbed(m, actions, at),
    decreases actions.len(),
{
    if actions.len() == 0 {
        lemma_said_last(actions);
        assert(m.queued + waiting(actions) =~= m.queued);
        assert(m.effects + said(actions) =~= m.effects);
        reveal(SessionModel::absorb);
    } else {
        lemma_absorb(m, actions.drop_last(), at);
        lemma_absorb_last(m, actions, at);
        assert(m.absorb(actions, at) == m.absorb(actions.drop_last(), at).absorb_one(
            actions.last(),
            at,
        )) by {
            reveal(SessionModel::absorb);
        }
    }
}

/// An event for the handoff machine is folded into it; what it decides waits
/// in order, a record is published with the local time, a silent stream is
/// said, and the section is published last. A claim in flight is void unless
/// this host has the audio.
pub proof fn a_handoff_event(m: SessionModel, event: handoff::Event, t: Moment)
    ensures
        ({
            let (h, actions) = handoff::step(m.handoff, event, t.now);
            m.handoff_event(event, t) == (SessionModel {
                handoff: HandoffModel {
                    last_event: recorded(h.last_event, actions, t.local@),
                    ..h
                },
                queued: m.queued + waiting(actions),
                claim_epoch: if h.owner == crate::state::HandoffOwner::Local && !h.released {
                    m.claim_epoch
                } else if m.claim_epoch == u64::MAX {
                    0
                } else {
                    (m.claim_epoch + 1) as u64
                },
                effects: (m.effects + said(actions)).push(EffectModel::PublishHandoff),
                ..m
            })
        }),
{
    reveal(SessionModel::handoff_event);
    reveal(SessionModel::after_handoff);
    reveal(SessionModel::handoff_settled);
    let (h, actions) = handoff::step(m.handoff, event, t.now);
    lemma_absorb(SessionModel { handoff: h, ..m }, actions, t.local@);
}

/// The effects of what ear detection decided.
pub open spec fn asked_of_players(actions: Seq<ear_media::ActionModel>) -> Seq<EffectModel>
    decreases actions.len(),
{
    if actions.len() == 0 {
        Seq::empty()
    } else {
        let head = asked_of_players(actions.drop_last());
        match actions.last() {
            ear_media::ActionModel::PauseLocalPlayers => head.push(
                EffectModel::Mpris(MprisModel::PausePlaying),
            ),
            ear_media::ActionModel::ResumePlayer { player } => if player is Some {
                head.push(EffectModel::Mpris(MprisModel::Play(player->0)))
            } else {
                head
            },
        }
    }
}

proof fn lemma_ear_all(m: SessionModel, actions: Seq<ear_media::ActionModel>)
    ensures
        m.ear_all(actions) == (SessionModel {
            effects: m.effects + asked_of_players(actions),
            ..m
        }),
    decreases actions.len(),
{
    reveal(SessionModel::ear_all);
    reveal(SessionModel::ear_one);
    if actions.len() == 0 {
        assert(m.effects + asked_of_players(actions) =~= m.effects);
    } else {
        let head = actions.drop_last();
        lemma_ear_all(m, head);
        let done = m.ear_all(head);
        match actions.last() {
            ear_media::ActionModel::PauseLocalPlayers => {
                assert(m.effects + asked_of_players(actions) =~= done.effects.push(
                    EffectModel::Mpris(MprisModel::PausePlaying),
                ));
            },
            ear_media::ActionModel::ResumePlayer { player } => {
                if player is Some {
                    assert(m.effects + asked_of_players(actions) =~= done.effects.push(
                        EffectModel::Mpris(MprisModel::Play(player->0)),
                    ));
                } else {
                    assert(m.effects + asked_of_players(actions) =~= done.effects);
                }
            },
        }
    }
}

/// An event for ear detection is folded into it, and what it decides is asked
/// of the players. Audio counts as going to the AirPods while the link is up,
/// the card was not taken off them, and handoff, where it is on, says so.
pub proof fn an_ear_event(m: SessionModel, event: ear_media::Event, t: Moment)
    ensures
        ({
            let here = m.acl && m.route != Some(RouteMode::Yielded) && (!m.handoff.enabled || (
            m.handoff.owner == crate::state::HandoffOwner::Local && !m.handoff.released));
            let (e, actions) = ear_media::step(
                m.ear,
                event,
                ear_media::Context { audio_on_airpods: here },
                t.now,
            );
            m.ear_event(event, t) == (SessionModel {
                ear: e,
                effects: m.effects + asked_of_players(actions),
                ..m
            })
        }),
{
    reveal(SessionModel::ear_event);
    let (e, actions) = ear_media::step(m.ear, event, m.ear_context(), t.now);
    lemma_ear_all(SessionModel { ear: e, ..m }, actions);
}

/// The sequence that is under way: a rejoin before auto-connect.
pub open spec fn under_way(m: SessionModel) -> Option<(bool, u64)> {
    if m.rejoin is Some {
        Some((true, m.rejoin->0.seq))
    } else if m.auto.pending is Some {
        Some((false, m.auto.pending->0.seq))
    } else {
        None
    }
}

/// What is shown of a reconnect sequence: its reason and start stay while it
/// is the same one, and its attempts are those started. A new one is a bud
/// switch within fifteen seconds of one, else what the machine says.
pub proof fn a_shown_sequence(m: SessionModel, t: Moment)
    ensures
        ({
            let after = m.link_published(t);
            let kept = m.sequence is Some && under_way(m) == Some(
                (m.sequence->0.rejoin, m.sequence->0.seq),
            );
            &&& under_way(m) is None ==> after.sequence is None && after.published is None
            &&& under_way(m) is Some && kept ==> after.sequence == m.sequence
            &&& under_way(m) is Some && !kept ==> {
                &&& after.sequence matches Some(l)
                &&& Some((l.rejoin, l.seq)) == under_way(m)
                &&& l.since == t.utc
                &&& l.reason == (if !l.rejoin {
                    LinkReason::AutoConnect
                } else if m.buds.len() == 2 && age(t.now, m.buds[1].1) <= 15_000_000_000 {
                    LinkReason::BudSwitch
                } else if m.rejoin->0.link_lost {
                    LinkReason::LinkLost
                } else {
                    LinkReason::TakenOver
                })
            }
            &&& under_way(m) is Some ==> {
                &&& after.sequence matches Some(l)
                &&& after.published matches Some(v) && v.reason == l.reason && v.since == l.since
                    && v.attempt == (if l.rejoin {
                    m.rejoin->0.attempt as u32
                } else if m.auto.pending->0.in_flight {
                    m.auto.pending->0.attempt as u32
                } else {
                    (m.auto.pending->0.attempt - 1) as u32
                })
            }
            &&& after == (SessionModel {
                sequence: after.sequence,
                published: after.published,
                effects: after.effects,
                ..m
            })
        }),
{
    reveal(SessionModel::link_published);
}

/// The store is told of a reconnect sequence exactly when what is shown of it
/// changed.
pub proof fn a_sequence_is_told_when_it_changes(m: SessionModel, t: Moment)
    ensures
        ({
            let after = m.link_published(t);
            let same = match (after.published, m.published) {
                (Some(a), Some(b)) => a.reason == b.reason && a.attempt == b.attempt && a.since@
                    == b.since@,
                (None, None) => true,
                _ => false,
            };
            after.effects == (if same {
                m.effects
            } else {
                m.effects.push(EffectModel::Publish(Update::Link(after.published)))
            })
        }),
{
    reveal(SessionModel::link_published);
}

/// What auto-connect decided, one action: a page goes out to the two known
/// ends where link control is on, and is refused in these words otherwise;
/// a sequence that is called off may page no more.
pub proof fn an_auto_connect_action(m: SessionModel, action: autoconnect::ActionModel)
    ensures
        ({
            let after = m.auto_one(action);
            match action {
                autoconnect::ActionModel::Connect { seq, attempt } => if m.adapter is Some
                    && m.device is Some && m.auto_control {
                    after == (SessionModel {
                        auto_epoch: seq,
                        effects: m.effects.push(
                            EffectModel::Page {
                                seq,
                                attempt,
                                adapter: m.adapter->0,
                                device: m.device->0,
                            },
                        ),
                        ..m
                    })
                } else {
                    after == (SessionModel {
                        effects: m.effects.push(
                            EffectModel::PageRefused {
                                seq,
                                why: if m.adapter is Some && m.device is Some {
                                    "link_control_off"@
                                } else {
                                    "device_unknown"@
                                },
                            },
                        ),
                        ..m
                    })
                },
                autoconnect::ActionModel::Cancelled(_) | autoconnect::ActionModel::GaveUp(_) => after
                    == (SessionModel { auto_epoch: 0, ..m }),
                _ => after == m,
            }
        }),
{
    reveal(SessionModel::auto_one);
}

/// An event for auto-connect is folded into it with whether a rejoin is
/// pending; the actions are carried out in order and the sequence is shown.
pub proof fn an_auto_connect_event(m: SessionModel, event: autoconnect::Event, t: Moment)
    ensures
        ({
            let (a, actions) = autoconnect::step(
                AutoConnectState { rejoin_pending: m.rejoin is Some, ..m.auto },
                event,
                t.now,
            );
            &&& m.auto_event(event, t).auto == a
            &&& actions.len() == 0 ==> m.auto_event(event, t) == (SessionModel {
                auto: a,
                ..m
            }).link_published(t)
            &&& actions.len() == 1 ==> m.auto_event(event, t) == (SessionModel {
                auto: a,
                ..m
            }).auto_one(actions[0]).link_published(t)
            &&& actions.len() == 2 ==> m.auto_event(event, t) == (SessionModel {
                auto: a,
                ..m
            }).auto_one(actions[0]).auto_one(actions[1]).link_published(t)
        }),
{
    reveal(SessionModel::auto_event);
    reveal(SessionModel::link_published);
    let (a, actions) = autoconnect::step(
        AutoConnectState { rejoin_pending: m.rejoin is Some, ..m.auto },
        event,
        t.now,
    );
    let m1 = SessionModel { auto: a, ..m };
    crate::aap::session::auto_all_keeps(m1, actions);
    reveal_with_fuel(SessionModel::auto_all, 3);
}

// ---------------------------------------------------------------------------
// The end of a link
// ---------------------------------------------------------------------------

/// A link that ends is forgotten: its socket is closed and its end published,
/// both machines are told, and a card that was taken off the AirPods is put
/// back on them while they are there, and left alone otherwise.
pub proof fn an_ended_link(m: SessionModel, t: Moment)
    ensures
        ({
            let after = m.closed(t);
            &&& !after.open && after.handshake_at is None && !after.battery_seen && after.resends
                == 0 && after.probe_at is None && after.readback_at is None
            &&& after.acl == m.acl && after.dial_at == m.dial_at && after.dial_kind == m.dial_kind
                && after.generation == m.generation && after.suppressed == m.suppressed
                && after.last_packet == m.last_packet && after.verify_at == m.verify_at
                && after.verify_budget == m.verify_budget && after.locked == m.locked
                && after.buds == m.buds && after.auto == m.auto && after.rejoin == m.rejoin
            &&& after.handoff == handoff::step(m.handoff, handoff::Event::LinkClosed, t.now).0
            &&& after.ear.settled is None && after.ear.pending is None && after.ear.paused
                == m.ear.paused
            &&& after.effects.len() >= m.effects.len() + 3
            &&& after.effects.take(m.effects.len() as int) == m.effects
            &&& after.effects[m.effects.len() as int] == EffectModel::CloseSocket
            &&& after.effects[m.effects.len() as int + 1] == EffectModel::Publish(Update::AapLink(false))
            &&& after.effects[m.effects.len() as int + 2] == EffectModel::PublishHandoff
            &&& m.route != Some(RouteMode::Yielded) ==> after.route == m.route
                && after.effects.len() == m.effects.len() + 3
            &&& m.route == Some(RouteMode::Yielded) && m.acl && m.control_audio && m.device is Some
                ==> after.route == Some(RouteMode::Own) && after.effects.last() == (
            EffectModel::Route { device: m.device->0, mode: RouteMode::Own })
            &&& m.route == Some(RouteMode::Yielded) && !m.acl ==> after.route is None
                && after.effects.last() == EffectModel::CancelRoute
        }),
{
    reveal(SessionModel::closed);
    reveal(SessionModel::routed);
    reveal(SessionModel::unrouted);
    let m1 = m.ended();
    a_handoff_event(m1, handoff::Event::LinkClosed, t);
    let (h, actions) = handoff::step(m1.handoff, handoff::Event::LinkClosed, t.now);
    super::handoff::a_link_starts_from_nothing(m1.handoff, t.now, false);
    lemma_said_last(actions);
    let m2 = m1.handoff_event(handoff::Event::LinkClosed, t);
    assert(m2.effects =~= m1.effects.push(EffectModel::PublishHandoff));
    an_ear_event(m2, ear_media::Event::LinkClosed, t);
    let here = m2.acl && m2.route != Some(RouteMode::Yielded) && (!m2.handoff.enabled || (
    m2.handoff.owner == crate::state::HandoffOwner::Local && !m2.handoff.released));
    let c = ear_media::Context { audio_on_airpods: here };
    super::ear::a_closed_link_keeps_a_pending_resume(m2.ear, c, t.now);
    let more = ear_media::step(m2.ear, ear_media::Event::LinkClosed, c, t.now).1;
    assert(asked_of_players(more) =~= Seq::empty());
    let m3 = m2.ear_event(ear_media::Event::LinkClosed, t);
    assert(m3.effects =~= m2.effects);
    assert(m3.effects.take(m.effects.len() as int) =~= m.effects);
    assert(m.closed(t).effects.take(m.effects.len() as int) =~= m.effects);
}

/// Stopping unattended recovery disarms the dial and ends the link; reopening
/// ends it too, and arms one dial at once.
pub proof fn recovery_is_stopped_or_redone(m: SessionModel, t: Moment)
    ensures
        m.suppress(t) == (SessionModel {
            suppressed: true,
            dial_at: None,
            dial_kind: None,
            ..m
        }).closed(t),
        m.reopened(t).dial_kind == Some(DialKind::Manual),
        m.reopened(t).dial_at == Some(t.now),
        (SessionModel { dial_kind: m.dial_kind, dial_at: m.dial_at, ..m.reopened(t) }) == m.closed(
            t,
        ),
{
    reveal(SessionModel::suppress);
    reveal(SessionModel::reopened);
    crate::aap::session::closed_keeps(m, t);
}

// ---------------------------------------------------------------------------
// Watchdogs and timers
// ---------------------------------------------------------------------------

/// Five minutes of silence ask for a probe, and fifteen seconds without a word
/// behind the probe end the link.
pub proof fn silence_is_probed(now: Instant, heard: Option<Instant>, probe: Option<Instant>)
    ensures
        idle_rule(now, heard, probe) == IdleAction::Probe <==> probe is None && heard is Some
            && age(now, heard->0) >= 300_000_000_000,
        idle_rule(now, heard, probe) == IdleAction::Recycle <==> probe is Some && !(heard is Some
            && heard->0 > probe->0) && age(now, probe->0) >= 15_000_000_000,
{
}

/// Without a classic link nothing happens; without an AAP link an armed dial
/// comes due; an open link that gave no battery reading for ten seconds is
/// asked again twice and then given up, and a silent one is probed.
pub proof fn a_link_is_watched(m: SessionModel, t: Moment)
    ensures
        ({
            let (after, action) = m.link_ticked(t);
            let overdue = !m.battery_seen && m.handshake_at is Some && age(
                t.now,
                m.handshake_at->0,
            ) >= 10_000_000_000;
            let idle = idle_rule(t.now, m.last_packet, m.probe_at);
            &&& !m.acl ==> action == LinkStep::Nothing && after == m
            &&& m.acl && !m.open ==> after == m && (action == LinkStep::Dial <==> m.dial_at is Some
                && t.now >= m.dial_at->0) && action != LinkStep::RequestNotifications
            &&& m.acl && m.open && overdue && m.resends < 2 ==> action
                == LinkStep::RequestNotifications && after == (SessionModel {
                resends: (m.resends + 1) as u8,
                handshake_at: Some(t.now),
                ..m
            })
            &&& m.acl && m.open && overdue && m.resends >= 2 ==> action == LinkStep::Nothing
                && after == m.suppress(t)
            &&& m.acl && m.open && !overdue && idle == IdleAction::Probe ==> action
                == LinkStep::RequestNotifications && after == (SessionModel {
                probe_at: Some(t.now),
                ..m
            })
            &&& m.acl && m.open && !overdue && idle == IdleAction::Recycle ==> action
                == LinkStep::Nothing && after == m.suppress(t)
            &&& m.acl && m.open && !overdue && idle == IdleAction::Nothing ==> action
                == LinkStep::Nothing && after == m
        }),
{
}

/// A write is read back a second and a half after the last one, and given up
/// ten seconds after it; without any link it is given up at once.
pub proof fn a_write_is_read_back(m: SessionModel, after: AfterSend, t: Moment)
    requires
        t.now + 10_000_000_000 <= u128::MAX,
    ensures
        ({
            let sent = m.sent(after, t);
            match after {
                AfterSend::Publish(update) => sent == (SessionModel {
                    effects: m.effects.push(EffectModel::Publish(update)),
                    ..m
                }),
                AfterSend::ReadBackSetting(setting) => sent == (SessionModel {
                    verify_at: Some((t.now + 1_500_000_000) as u128),
                    verify_budget: Some((t.now + 10_000_000_000) as u128),
                    effects: m.effects.push(
                        EffectModel::Publish(Update::SettingRequested(setting)),
                    ),
                    ..m
                }),
                AfterSend::ReadBackName(name) => sent == (SessionModel {
                    verify_at: Some((t.now + 1_500_000_000) as u128),
                    verify_budget: Some((t.now + 10_000_000_000) as u128),
                    effects: m.effects.push(EffectModel::Publish(Update::RenameRequested(name))),
                    ..m
                }),
            }
        }),
        m.verify_budget is Some && t.now >= m.verify_budget->0 ==> m.verify_expired(t) == (
        SessionModel {
            verify_at: None,
            verify_budget: None,
            effects: m.effects.push(EffectModel::Publish(Update::VerifyFailed)),
            ..m
        }),
        !(m.verify_budget is Some && t.now >= m.verify_budget->0) ==> m.verify_expired(t) == m,
        m.verify_at is Some && t.now >= m.verify_at->0 && !m.acl && !m.open ==> m.reopen_due(t) == (
            SessionModel {
                verify_at: None,
                verify_budget: None,
                effects: m.effects.push(EffectModel::Publish(Update::VerifyFailed)),
                ..m
            },
            false,
        ),
        m.verify_at is Some && t.now >= m.verify_at->0 && (m.acl || m.open) ==> m.reopen_due(t) == (
            SessionModel { verify_at: None, ..m },
            true,
        ),
        !(m.verify_at is Some && t.now >= m.verify_at->0) ==> m.reopen_due(t) == (m, false),
{
    reveal(SessionModel::abandoned);
}

/// The settings dump of a link is judged once its window is over.
pub proof fn a_dump_is_judged_in_time(m: SessionModel, t: Moment)
    ensures
        ({
            let judged = m.dump_judged(t);
            let due = m.readback_at is Some && t.now >= m.readback_at->0;
            &&& !due ==> judged == m
            &&& due ==> judged.readback_at is None && judged.verify_budget is None
                && judged.handoff.opening_settled && judged.verify_at == m.verify_at && judged.open
                == m.open && judged.effects == m.effects.push(
                EffectModel::Publish(Update::VerifyCompleted),
            ).push(EffectModel::PublishHandoff)
        }),
{
    if m.readback_at is Some && t.now >= m.readback_at->0 {
        let m1 = SessionModel {
            readback_at: None,
            verify_budget: None,
            effects: m.effects.push(EffectModel::Publish(Update::VerifyCompleted)),
            ..m
        };
        assert(m.dump_judged(t) == m1.handoff_event(handoff::Event::OpeningSettled, t)) by {
            reveal(SessionModel::readback_finished);
        }
        a_handoff_event(m1, handoff::Event::OpeningSettled, t);
        super::handoff::notes_are_taken(m1.handoff, t.now);
        let actions = handoff::step(m1.handoff, handoff::Event::OpeningSettled, t.now).1;
        lemma_said_last(actions);
        assert(m1.effects + said(actions) =~= m1.effects);
    }
}

/// A fresh check of the local link decides on the reopen that a readback
/// needs.
pub proof fn a_readback_needs_a_local_link(
    m: SessionModel,
    fresh: Result<bool, String>,
    t: Moment,
)
    ensures
        ({
            let checked = m.verify_checked(fresh, t);
            if fresh == Ok::<bool, String>(true) && m.acl {
                checked.dial_kind == Some(DialKind::Manual) && checked.dial_at == Some(t.now)
                    && !checked.open && checked.effects[m.effects.len() as int]
                    == EffectModel::Publish(Update::VerifyReopening)
            } else {
                checked == (SessionModel {
                    verify_at: None,
                    verify_budget: None,
                    effects: m.effects.push(EffectModel::Publish(Update::VerifyFailed)),
                    ..m
                })
            }
        }),
{
    if fresh == Ok::<bool, String>(true) && m.acl {
        let m2 = m.publish(Update::VerifyReopening);
        recovery_is_stopped_or_redone(m2, t);
        an_ended_link(m2, t);
        assert(m2.closed(t).effects.take(m2.effects.len() as int)[m.effects.len() as int]
            == m2.effects[m.effects.len() as int]);
        assert(m2.reopened(t).effects == m2.closed(t).effects);
        assert(m2.reopened(t).open == m2.closed(t).open);
    } else {
        reveal(SessionModel::abandoned);
    }
}

// ---------------------------------------------------------------------------
// Dialling and opening
// ---------------------------------------------------------------------------

/// The variant of a dial: forced, then proven, then the two in turn, the
/// default one first.
pub proof fn the_variant_of_a_dial(
    forced: Option<FeaturesVariant>,
    proven: Option<FeaturesVariant>,
    attempt: u32,
)
    ensures
        forced is Some ==> Some(variant_for(forced, proven, attempt)) == forced,
        forced is None && proven is Some ==> Some(variant_for(forced, proven, attempt)) == proven,
        forced is None && proven is None ==> (variant_for(forced, proven, attempt)
            == FeaturesVariant::D7 <==> attempt % 2 == 0),
        forced is None && proven is None ==> variant_for(forced, proven, attempt)
            != FeaturesVariant::Ff,
{
}

/// An armed dial is taken up once, for the link and the identity of the
/// moment; a fresh check that the device is locally connected authorizes it
/// only for that link, and one that fails stops unattended recovery. So does
/// a dial without an identity.
pub proof fn a_dial_is_for_one_link(
    m: SessionModel,
    kind: DialKind,
    generation: u64,
    fresh: Result<bool, String>,
    t: Moment,
)
    ensures
        ({
            let (after, dial) = m.dial_begun(t);
            let ready = m.dial_kind is Some && m.acl && m.adapter is Some && m.device is Some;
            &&& dial is Some <==> ready
            &&& ready ==> after == (SessionModel { dial_kind: None, dial_at: None, ..m })
                && dial->0.kind == m.dial_kind->0 && dial->0.generation == m.generation
                && dial->0.adapter == m.adapter->0 && dial->0.device == m.device->0
            &&& m.dial_kind is None || !m.acl ==> after == m
            &&& m.dial_kind is Some && m.acl && !ready ==> after.suppressed && after.dial_at is None
                && after.dial_kind is None && !after.open && after.generation == m.generation
        }),
        ({
            let (after, go) = m.dial_authorized(kind, generation, fresh, t);
            let local = fresh == Ok::<bool, String>(true);
            &&& go <==> local && m.acl && m.generation == generation
            &&& local || kind == DialKind::Manual ==> after == m
            &&& !local && kind == DialKind::Automatic ==> after == m.suppress(t)
        }),
{
    reveal(SessionModel::suppress);
    let n = SessionModel { suppressed: true, dial_at: None, dial_kind: None, ..m };
    closed_keeps(n, t);
}

/// An opened link is published, its dump is awaited for two seconds and the
/// battery watchdog counts from here.
pub proof fn an_opened_link(m: SessionModel, t: Moment)
    requires
        t.now + 2_000_000_000 <= u128::MAX,
    ensures
        m.opened(t) == (SessionModel {
            open: true,
            handshake_at: Some(t.now),
            last_packet: Some(t.now),
            readback_at: Some((t.now + 2_000_000_000) as u128),
            effects: m.effects.push(EffectModel::Publish(Update::AapLink(true))),
            ..m
        }),
{
    reveal(SessionModel::opened);
}

/// A link that begins to open starts its counts anew and uses the variant of
/// its dial.
pub proof fn an_opening_link(m: SessionModel, t: Moment)
    requires
        m.dial_attempt < u32::MAX,
    ensures
        ({
            let after = m.opening(t);
            &&& !after.battery_seen && after.resends == 0
            &&& after.dial_attempt == m.dial_attempt + 1
            &&& after.active == variant_for(m.cfg.features, m.locked, m.dial_attempt)
            &&& after.handoff.link_up && after.handoff.opened_at == Some(t.now)
            &&& m.last_playback is Some ==> after.handoff.playing == Some(
                m.last_playback->0.playing,
            ) && after.handoff.play_edge is None
            &&& m.last_playback is None ==> after.handoff.playing is None
            &&& after.acl == m.acl && after.open == m.open && after.generation == m.generation
        }),
{
    reveal(SessionModel::opening);
    a_handoff_event(m, handoff::Event::LinkOpened, t);
    super::handoff::a_link_starts_from_nothing(m.handoff, t.now, true);
    let m1 = m.handoff_event(handoff::Event::LinkOpened, t);
    if let Some(reading) = m.last_playback {
        let event = handoff::Event::Playback {
            playing: reading.playing,
            app: reading.app,
            player: reading.player,
        };
        a_handoff_event(m1, event, t);
        super::handoff::a_start_is_the_users_or_a_players(
            m1.handoff,
            reading.playing,
            reading.app,
            reading.player,
            t.now,
        );
        lemma_playback_keeps(m1.handoff, reading.playing, reading.app, reading.player, t.now);
    }
}

proof fn lemma_playback_keeps(
    m: HandoffModel,
    playing: bool,
    app: Option<String>,
    player: Option<String>,
    now: Instant,
)
    ensures
        handoff::step(m, handoff::Event::Playback { playing, app, player }, now).0.opened_at
            == m.opened_at,
{
    reveal(handoff::step);
}

/// The opening sequence, move by move: the handshake, its answer within three
/// seconds, then the features and the subscription, in the order of the
/// variant, and the answer to the features within two.
pub proof fn the_opening_sequence(o: Opening, report: Report)
    requires
        o.wf(),
    ensures
        ({
            let next = if report == Report::Begun {
                0
            } else {
                o.at + 1
            };
            let hello = seq![0u8, 0, 4, 0, 1, 0, 2, 0, 0, 0, 0, 0, 0, 0, 0, 0];
            let all = seq![4u8, 0, 4, 0, 0x0f, 0, 0xff, 0xff, 0xff, 0xff, 0xff];
            let some = seq![4u8, 0, 4, 0, 0x0f, 0, 0xff, 0xff, 0xef, 0xff];
            let selector: u8 = if o.variant == FeaturesVariant::D7 {
                0xd7
            } else if o.variant == FeaturesVariant::Alt {
                0x0e
            } else {
                0xff
            };
            let features = seq![4u8, 0, 4, 0, 0x4d, 0, selector, 0, 0, 0, 0, 0, 0, 0];
            let alt = o.variant == FeaturesVariant::Alt;
            let step = o.step(report, true);
            &&& o.step(report, false) == OpeningModel::Stop
            &&& next == 0 ==> step == OpeningModel::Send(hello)
            &&& next == 1 ==> (step matches OpeningModel::Await { want, budget } && want
                == Awaited::Handshake && budget == 3_000_000_000)
            &&& next == 2 ==> step == OpeningModel::Send(
                if alt {
                    some
                } else {
                    features
                },
            )
            &&& next == 3 && alt ==> step == OpeningModel::Send(all)
            &&& next == 4 ==> step == OpeningModel::Send(
                if alt {
                    features
                } else {
                    all
                },
            )
            &&& next == 3 && !alt || next == 5 && alt ==> (step matches OpeningModel::Await {
                want,
                budget,
            } && want == Awaited::Features && budget == 2_000_000_000)
            &&& next == 5 && !alt || next == 6 ==> step == OpeningModel::Finish
            &&& o.broken(report) <==> report == Report::Failed || (report == Report::TimedOut
                && o.at == 1)
        }),
{
}

/// A claim that BlueZ refused as busy is tried again after seven tenths of a
/// second, a second and a half, and three, and no other is.
pub proof fn a_busy_claim_is_tried_again(c: Claim, end: ClaimEnd)
    requires
        c.tries <= 3,
    ensures
        ({
            let (after, wait) = c.after(end);
            &&& wait is Some <==> end == ClaimEnd::Busy && c.tries < 3
            &&& wait is Some ==> after.tries == c.tries + 1 && wait->0 == (if c.tries == 0 {
                700_000_000int
            } else if c.tries == 1 {
                1_500_000_000
            } else {
                3_000_000_000
            })
            &&& wait is None ==> after == c
            &&& after.epoch == c.epoch
        }),
{
}

} // verus!
