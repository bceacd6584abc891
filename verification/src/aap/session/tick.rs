//! What the supervisor does as time passes: readback timers, the dial that
//! comes due, and the watchdogs.
use super::{
    idle_decision, idle_rule, IdleAction, Moment, SessionModel, Supervisor, BATTERY_WATCHDOG,
    MAX_NOTIF_RESENDS,
};
use crate::autoconnect;
use crate::clock::{elapsed, since, Instant};
use crate::ear_media;
use crate::handoff;
use crate::rejoin;
use crate::store::Update;
use vstd::prelude::*;

verus! {

/// What one tick asks of the AAP link.
#[derive(Debug, Clone, Copy, PartialEq, Eq, Structural)]
pub enum LinkStep {
    /// Nothing.
    Nothing,
    /// The armed dial is due.
    Dial,
    /// Ask for notifications once more; a failure ends the link.
    RequestNotifications,
}

/// A deadline has passed.
pub open spec fn due(deadline: Option<Instant>, now: Instant) -> bool {
    deadline matches Some(at) && now >= at
}

fn is_due(deadline: Option<Instant>, now: Instant) -> (r: bool)
    ensures
        r == due(deadline, now),
{
    match deadline {
        Some(at) => now >= at,
        None => false,
    }
}

impl SessionModel {
    /// The state machines see the tick, in order.
    #[verifier::opaque]
    pub open spec fn ticked(self, rejoin: Option<rejoin::Pending>, t: Moment) -> SessionModel {
        self.handoff_event(handoff::Event::Tick, t).ear_event(
            ear_media::Event::Tick,
            t,
        ).rejoin_seen(rejoin, t).auto_event(autoconnect::Event::Tick, t)
    }

    /// The readback is given up; the write itself stands.
    #[verifier::opaque]
    pub open spec fn abandoned(self) -> SessionModel {
        SessionModel { verify_at: None, verify_budget: None, ..self }.publish(Update::VerifyFailed)
    }

    /// The dump window closes on time, with or without a battery packet.
    pub open spec fn dump_judged(self, t: Moment) -> SessionModel {
        if due(self.readback_at, t.now) {
            self.readback_finished(t)
        } else {
            self
        }
    }

    /// The debounced reopen comes due. Without any link it is given up; else
    /// the local link is to be checked first.
    pub open spec fn reopen_due(self, t: Moment) -> (SessionModel, bool) {
        if due(self.verify_at, t.now) {
            let m = SessionModel { verify_at: None, ..self };
            if !m.acl && !m.open {
                (m.abandoned(), false)
            } else {
                (m, true)
            }
        } else {
            (self, false)
        }
    }

    /// The readback timers.
    pub open spec fn verification(self, t: Moment) -> (SessionModel, bool) {
        self.dump_judged(t).reopen_due(t)
    }

    /// The fresh check of the local link that precedes a readback reopen.
    pub open spec fn verify_checked(self, fresh: Result<bool, String>, t: Moment) -> SessionModel {
        if fresh == Ok::<bool, String>(true) && self.acl {
            self.publish(Update::VerifyReopening).reopened(t)
        } else {
            self.abandoned()
        }
    }

    /// The whole readback is out of time.
    pub open spec fn verify_expired(self, t: Moment) -> SessionModel {
        if due(self.verify_budget, t.now) {
            self.abandoned()
        } else {
            self
        }
    }

    /// No battery packet since notifications were last asked for.
    pub open spec fn battery_overdue(self, now: Instant) -> bool {
        !self.battery_seen && (self.handshake_at matches Some(at) && elapsed(now, at)
            >= BATTERY_WATCHDOG)
    }

    /// The dial that comes due, and the watchdogs of an open link.
    pub open spec fn link_ticked(self, t: Moment) -> (SessionModel, LinkStep) {
        if !self.acl {
            (self, LinkStep::Nothing)
        } else if !self.open {
            (
                self,
                if due(self.dial_at, t.now) {
                    LinkStep::Dial
                } else {
                    LinkStep::Nothing
                },
            )
        } else if self.battery_overdue(t.now) {
            if self.resends < MAX_NOTIF_RESENDS {
                (
                    SessionModel {
                        resends: (self.resends + 1) as u8,
                        handshake_at: Some(t.now),
                        ..self
                    },
                    LinkStep::RequestNotifications,
                )
            } else {
                (self.suppress(t), LinkStep::Nothing)
            }
        } else {
            match idle_rule(t.now, self.last_packet, self.probe_at) {
                IdleAction::Nothing => (self, LinkStep::Nothing),
                IdleAction::Probe => (
                    SessionModel { probe_at: Some(t.now), ..self },
                    LinkStep::RequestNotifications,
                ),
                IdleAction::Recycle => (self.suppress(t), LinkStep::Nothing),
            }
        }
    }
}

impl Supervisor {
    /// Let the state machines see a tick. `rejoin` is what the rejoin machine
    /// has pending once it has seen the tick too.
    pub fn tick(&mut self, rejoin: Option<rejoin::Pending>, t: &Moment)
        requires
            old(self).model().valid(),
            old(self).model().ready(t.now),
        ensures
            final(self).model() == old(self).model().ticked(rejoin, *t),
            final(self).model().valid(),
    {
        proof {
            reveal(SessionModel::ticked);
        }
        self.handoff_event(handoff::Event::Tick, t);
        self.ear_event(ear_media::Event::Tick, t);
        self.rejoin_seen(rejoin, t);
        self.autoconnect_event(autoconnect::Event::Tick, t);
    }

    fn abandon_readback(&mut self)
        ensures
            final(self).model() == old(self).model().abandoned(),
            final(self).model().auto == old(self).model().auto,
    {
        proof {
            reveal(SessionModel::abandoned);
        }
        self.verify_at = None;
        self.verify_budget = None;
        self.publish(Update::VerifyFailed);
    }

    /// Run the readback timers. `true` means that the local link is to be
    /// checked, and the answer handed to [`Supervisor::verify_checked`].
    pub fn tick_verification(&mut self, t: &Moment) -> (r: bool)
        requires
            old(self).model().valid(),
        ensures
            (final(self).model(), r) == old(self).model().verification(*t),
            final(self).model().valid(),
    {
        if is_due(self.readback_at, t.now) {
            self.finish_readback(t);
        }
        if is_due(self.verify_at, t.now) {
            self.verify_at = None;
            if !self.acl && !self.open {
                self.abandon_readback();
                return false;
            }
            return true;
        }
        false
    }

    /// Reopen the AAP link for readback, the same way `reconnect` does, if the
    /// local link is still there.
    pub fn verify_checked(&mut self, fresh: Result<bool, String>, t: &Moment)
        requires
            old(self).model().valid(),
        ensures
            final(self).model() == old(self).model().verify_checked(fresh, *t),
            final(self).model().valid(),
    {
        match fresh {
            Ok(true) => {
                if self.acl {
                    self.publish(Update::VerifyReopening);
                    self.reopen_local_link(t);
                } else {
                    self.abandon_readback();
                }
            },
            _ => {
                self.abandon_readback();
            },
        }
    }

    /// Give the readback up once its whole budget is spent.
    pub fn expire_verification(&mut self, t: &Moment)
        requires
            old(self).model().valid(),
        ensures
            final(self).model() == old(self).model().verify_expired(*t),
            final(self).model().valid(),
    {
        if is_due(self.verify_budget, t.now) {
            self.abandon_readback();
        }
    }

    /// Look at the AAP link: a dial that is due, or a watchdog that fires.
    pub fn tick_link(&mut self, t: &Moment) -> (r: LinkStep)
        requires
            old(self).model().valid(),
        ensures
            (final(self).model(), r) == old(self).model().link_ticked(*t),
            final(self).model().valid(),
    {
        if !self.acl {
            return LinkStep::Nothing;
        }
        if !self.open {
            if is_due(self.dial_at, t.now) {
                return LinkStep::Dial;
            }
            return LinkStep::Nothing;
        }
        let overdue = !self.battery_seen && (match self.handshake_at {
            Some(at) => since(t.now, at) >= BATTERY_WATCHDOG,
            None => false,
        });
        if overdue {
            if self.resends < MAX_NOTIF_RESENDS {
                self.resends = self.resends + 1;
                self.handshake_at = Some(t.now);
                return LinkStep::RequestNotifications;
            }
            self.suppress_automatic(t);
            return LinkStep::Nothing;
        }
        match idle_decision(t.now, self.last_packet, self.probe_at) {
            IdleAction::Nothing => LinkStep::Nothing,
            IdleAction::Probe => {
                self.probe_at = Some(t.now);
                LinkStep::RequestNotifications
            },
            IdleAction::Recycle => {
                self.suppress_automatic(t);
                LinkStep::Nothing
            },
        }
    }
}

} // verus!
