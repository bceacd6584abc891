//! What holds of the supervisor as a whole.
use super::command::{AfterSend, PlanModel};
use super::link::addresses_of;
use super::tick::LinkStep;
use super::{
    auto_all_keeps, auto_keeps, bumped, closed_keeps, ear_keeps, handoff_event_keeps,
    handoff_keeps, idle_rule, link_keeps, model_refusal, rejoin_keeps, DialKind, IdleAction,
    Moment, SessionModel, MAX_NOTIF_RESENDS, SETTLE,
};
use crate::aap::codec::{BatteryEntry, ControlState, DecodeError, Packet, OWNERSHIP_TO_FALSE};
use crate::address::Address;
use crate::autoconnect;
use crate::bluez::LinkEvent;
use crate::ctl_proto::Request;
use crate::ear_media;
use crate::handoff;
use crate::rejoin;
use crate::rejoin::Reason;
use crate::store::Update;
use crate::text::occurs_in;
use vstd::prelude::*;
use vstd::utf8::encode_utf8;

verus! {

impl SessionModel {
    /// Nothing is armed or authorized anew: the link, the dial and the number
    /// of the link are the same.
    pub open spec fn keeps_authority(self, after: SessionModel) -> bool {
        &&& after.acl == self.acl
        &&& after.open == self.open
        &&& after.dial_at == self.dial_at
        &&& after.dial_kind == self.dial_kind
        &&& after.generation == self.generation
        &&& after.suppressed == self.suppressed
        &&& after.adapter == self.adapter
        &&& after.device == self.device
        &&& after.pinned == self.pinned
    }

    /// At most two bud addresses are remembered, and they differ.
    pub open spec fn buds_differ(self) -> bool {
        self.buds.len() <= 2 && (self.buds.len() == 2 ==> self.buds[0].0 != self.buds[1].0)
    }
}

proof fn found_keeps(m: SessionModel, rejoin: Option<rejoin::Pending>, t: Moment) -> (r: SessionModel)
    ensures
        m.keeps_link(r),
        m.found(rejoin, t) == r.connected(t),
{
    reveal(SessionModel::found);
    let m1 = m.rejoin_seen(rejoin, t);
    rejoin_keeps(m, rejoin, t);
    let m2 = m1.auto_event(autoconnect::Event::LocalConnected, t);
    auto_keeps(m1, autoconnect::Event::LocalConnected, t);
    let m3 = m2.handoff_event(handoff::Event::AudioLinkChanged, t);
    handoff_event_keeps(m2, handoff::Event::AudioLinkChanged, t);
    m3.publish(Update::AclConnected(true))
}

/// A local link that was already observed arms nothing again: a repeated
/// `Connected=true` leaves every authority as it was.
pub proof fn a_repeated_observation_rearms_nothing(
    m: SessionModel,
    rejoin: Option<rejoin::Pending>,
    t: Moment,
)
    requires
        m.acl,
    ensures
        m.keeps_authority(m.on_link(LinkEvent::Connected(true), rejoin, t)),
{
    let r = found_keeps(m, rejoin, t);
    reveal(SessionModel::connected);
}

/// A local link observed for the first time arms exactly one automatic dial,
/// ends a suppression, and gets a number that the link before it did not have.
pub proof fn a_new_local_link_arms_one_dial(
    m: SessionModel,
    rejoin: Option<rejoin::Pending>,
    t: Moment,
)
    requires
        !m.acl,
        t.now + SETTLE <= u128::MAX,
    ensures
        ({
            let a = m.on_link(LinkEvent::Connected(true), rejoin, t);
            &&& a.acl
            &&& a.dial_kind == Some(DialKind::Automatic)
            &&& a.dial_at == Some((t.now + SETTLE) as u128)
            &&& !a.suppressed
            &&& a.dial_attempt == 0
            &&& a.generation != m.generation
            &&& a.buds.len() == 0
        }),
{
    let r = found_keeps(m, rejoin, t);
    reveal(SessionModel::connected);
}

proof fn lost_keeps(m: SessionModel, rejoin: Option<rejoin::Pending>, t: Moment)
    ensures
        ({
            let a = m.lost(rejoin, t);
            &&& !a.acl
            &&& !a.open
            &&& a.dial_at is None
            &&& a.dial_kind is None
            &&& a.generation == (if m.acl || m.adapter is Some {
                bumped(m.generation)
            } else {
                m.generation
            })
            &&& a.suppressed == m.suppressed
            &&& a.adapter == m.adapter
            &&& a.device == m.device
            &&& a.pinned == m.pinned
            &&& a.buds == m.buds
            &&& a.locked == m.locked
        }),
{
    reveal(SessionModel::lost);
    reveal(SessionModel::disconnected);
    let event = autoconnect::Event::LocalDisconnected { reason: Reason::Unknown };
    let m1 = m.rejoin_seen(rejoin, t);
    rejoin_keeps(m, rejoin, t);
    let m2 = m1.auto_event(event, t);
    auto_keeps(m1, event, t);
    let m3 = m2.handoff_event(handoff::Event::AudioLinkChanged, t);
    handoff_event_keeps(m2, handoff::Event::AudioLinkChanged, t);
    let m4 = SessionModel {
        acl: false,
        dial_at: None,
        dial_kind: None,
        generation: if m3.acl || m3.adapter is Some {
            bumped(m3.generation)
        } else {
            m3.generation
        },
        ..m3
    };
    closed_keeps(m4, t);
}

/// A lost link cancels whatever was being opened: no number of a link is alive
/// any more, and nothing is left armed.
pub proof fn a_lost_link_cancels_every_opening(
    m: SessionModel,
    event: LinkEvent,
    rejoin: Option<rejoin::Pending>,
    t: Moment,
    generation: u64,
)
    requires
        event == LinkEvent::Connected(false) || event == LinkEvent::AdapterGone,
    ensures
        ({
            let a = m.on_link(event, rejoin, t);
            &&& !a.alive(generation)
            &&& !a.open
            &&& a.dial_at is None
            &&& a.dial_kind is None
        }),
{
    lost_keeps(m, rejoin, t);
}

proof fn disowned_keeps(
    m: SessionModel,
    pinned: bool,
    rejoin: Option<rejoin::Pending>,
    t: Moment,
)
    ensures
        ({
            let a = m.disowned(pinned, rejoin, t);
            &&& !a.acl
            &&& !a.open
            &&& a.dial_at is None
            &&& a.dial_kind is None
            &&& a.generation == bumped(m.generation)
            &&& a.pinned == pinned
            &&& a.suppressed == m.suppressed
            &&& a.adapter == m.adapter
            &&& a.device == m.device
            &&& a.buds == m.buds
            &&& a.locked == m.locked
        }),
{
    reveal(SessionModel::disowned);
    let m1 = SessionModel {
        generation: bumped(m.generation),
        acl: false,
        pinned,
        dial_at: None,
        dial_kind: None,
        ..m
    };
    closed_keeps(m1, t);
    rejoin_keeps(m1.closed(t).publish(Update::AclConnected(false)), rejoin, t);
}

/// A new identity inherits no authority: the link counts as down, nothing is
/// armed, and an opening that was under way is not alive any more.
pub proof fn a_new_identity_has_no_authority(
    m: SessionModel,
    adapter: Address,
    address: Address,
    name: Option<String>,
    model_id: Option<String>,
    pinned: bool,
    rejoin: Option<rejoin::Pending>,
    t: Moment,
)
    requires
        m.identity_changes(adapter, address, pinned),
    ensures
        ({
            let event = LinkEvent::Identity { adapter, address, name, model_id, pinned };
            let a = m.on_link(event, rejoin, t);
            &&& !a.acl
            &&& !a.open
            &&& a.dial_at is None
            &&& a.dial_kind is None
            &&& a.generation != m.generation
            &&& a.adapter == Some(adapter)
            &&& a.device == Some(address)
            &&& a.pinned == pinned
        }),
{
    disowned_keeps(m, pinned, rejoin, t);
    reveal(SessionModel::identified);
}

proof fn dropped_keeps(
    m: SessionModel,
    reason: Reason,
    rejoin: Option<rejoin::Pending>,
    t: Moment,
)
    ensures
        m.keeps_link(m.dropped(reason, rejoin, t)),
        m.dropped(reason, rejoin, t).route is None,
{
    reveal(SessionModel::dropped);
    reveal(SessionModel::unrouted);
    let event = autoconnect::Event::LocalDisconnected { reason };
    let m1 = m.unrouted();
    auto_keeps(m1, event, t);
    rejoin_keeps(m1.auto_event(event, t), rejoin, t);
}

/// Of all link events, only a first observation of a local link arms a dial or
/// ends a suppression. A link event never arms a manual dial.
pub proof fn only_a_new_local_link_arms_a_dial(
    m: SessionModel,
    event: LinkEvent,
    rejoin: Option<rejoin::Pending>,
    t: Moment,
)
    requires
        !(event == LinkEvent::Connected(true) && !m.acl),
    ensures
        ({
            let a = m.on_link(event, rejoin, t);
            &&& a.dial_kind is None || a.dial_kind == m.dial_kind
            &&& a.dial_at is None || a.dial_at == m.dial_at
            &&& a.suppressed == m.suppressed
            &&& a.acl ==> m.acl
        }),
{
    match event {
        LinkEvent::Identity { adapter, address, name, model_id, pinned } => {
            disowned_keeps(m, pinned, rejoin, t);
            reveal(SessionModel::identified);
        },
        LinkEvent::AdapterAppleId(apple) => {},
        LinkEvent::AudioTransport => {
            handoff_event_keeps(m, handoff::Event::AudioLinkChanged, t);
        },
        LinkEvent::A2dpTransport { active, .. } => {
            handoff_event_keeps(m, handoff::Event::A2dpTransport { active }, t);
        },
        LinkEvent::HandsFreeTransport { .. } => {},
        LinkEvent::Disconnected { reason, .. } => {
            dropped_keeps(m, Reason::of_name(reason@), rejoin, t);
        },
        LinkEvent::Connected(connected) => {
            if connected {
                let r = found_keeps(m, rejoin, t);
                reveal(SessionModel::connected);
            } else {
                lost_keeps(m, rejoin, t);
            }
        },
        LinkEvent::WatchEnded => {},
        LinkEvent::AdapterGone => {
            lost_keeps(m, rejoin, t);
        },
    }
}

/// A watch that merely ended changes nothing at all: the link, the adapter and
/// a scheduled rejoin are untouched.
pub proof fn a_watch_that_ended_changes_nothing(
    m: SessionModel,
    rejoin: Option<rejoin::Pending>,
    t: Moment,
)
    ensures
        m.on_link(LinkEvent::WatchEnded, rejoin, t) == m,
{
}

/// Suppression leaves nothing armed and no link open, and lasts: it touches
/// neither the local link nor its number.
pub proof fn suppression_leaves_nothing_armed(m: SessionModel, t: Moment)
    ensures
        ({
            let a = m.suppress(t);
            &&& a.suppressed
            &&& a.dial_at is None
            &&& a.dial_kind is None
            &&& !a.open
            &&& a.acl == m.acl
            &&& a.generation == m.generation
        }),
{
    reveal(SessionModel::suppress);
    closed_keeps(
        SessionModel { suppressed: true, dial_at: None, dial_kind: None, ..m },
        t,
    );
}

/// A dial is authorized only by a fresh check that says the device is locally
/// connected, on the link the dial was made for. An automatic dial that is
/// refused by that check is not left armed.
pub proof fn no_dial_without_a_fresh_local_link(
    m: SessionModel,
    kind: DialKind,
    generation: u64,
    fresh: Result<bool, String>,
    t: Moment,
)
    ensures
        m.dial_authorized(kind, generation, fresh, t).1 ==> fresh == Ok::<bool, String>(true)
            && m.acl && m.generation == generation,
        fresh != Ok::<bool, String>(true) && kind == DialKind::Automatic ==> m.dial_authorized(
            kind,
            generation,
            fresh,
            t,
        ).0.suppressed && m.dial_authorized(kind, generation, fresh, t).0.dial_kind is None,
{
    suppression_leaves_nothing_armed(m, t);
}

/// One armed dial is one dial: taking it up disarms it, and nothing is dialed
/// without a local link.
pub proof fn a_dial_is_taken_up_once(m: SessionModel, t: Moment)
    ensures
        m.dial_begun(t).1 is Some ==> m.acl && m.dial_kind is Some && m.dial_begun(
            t,
        ).0.dial_kind is None && m.dial_begun(t).0.dial_at is None,
        m.acl ==> m.dial_begun(t).0.dial_begun(t).1 is None,
{
    suppression_leaves_nothing_armed(SessionModel { dial_kind: None, ..m }, t);
}

proof fn battery_keeps(m: SessionModel, entries: Vec<BatteryEntry>, t: Moment)
    ensures
        m.keeps_authority(m.battery_heard(entries, t)),
        m.battery_heard(entries, t).locked == (if m.locked is None {
            Some(m.active)
        } else {
            m.locked
        }),
        m.battery_heard(entries, t).active == m.active,
        m.battery_heard(entries, t).last_packet == m.last_packet,
        m.battery_heard(entries, t).probe_at == m.probe_at,
        m.battery_heard(entries, t).buds == m.buds,
{
    reveal(SessionModel::battery_heard);
    reveal(SessionModel::readback_finished);
    let m1 = SessionModel {
        locked: if m.locked is None {
            Some(m.active)
        } else {
            m.locked
        },
        battery_seen: true,
        ..m
    }.publish(Update::Battery(entries));
    handoff_event_keeps(
        SessionModel { readback_at: None, verify_budget: None, ..m1 }.publish(
            Update::VerifyCompleted,
        ),
        handoff::Event::OpeningSettled,
        t,
    );
}

proof fn ownership_keeps(m: SessionModel, owns: bool, t: Moment)
    ensures
        m.keeps_link(m.ownership_heard(owns, t)),
{
    reveal(SessionModel::ownership_heard);
    reveal(SessionModel::routed);
    handoff_event_keeps(
        m,
        handoff::Event::OwnsConnection { owns, opening: !m.open || m.readback_at is Some },
        t,
    );
}

proof fn address_keeps(m: SessionModel, address: Address, extra: [u8; 2], t: Moment)
    ensures
        m.keeps_authority(m.address_noted(address, extra, t.now)),
        m.address_noted(address, extra, t.now).locked == m.locked,
        m.address_noted(address, extra, t.now).active == m.active,
        m.address_noted(address, extra, t.now).last_packet == m.last_packet,
        m.address_noted(address, extra, t.now).probe_at == m.probe_at,
{
    reveal(SessionModel::address_noted);
}

proof fn understood_keeps(
    m: SessionModel,
    packet: Packet,
    rejoin: Option<rejoin::Pending>,
    t: Moment,
)
    ensures
        m.keeps_authority(m.understood(packet, rejoin, t)),
        m.understood(packet, rejoin, t).locked == (if m.locked is None && packet is Battery {
            Some(m.active)
        } else {
            m.locked
        }),
        m.understood(packet, rejoin, t).active == m.active,
        m.understood(packet, rejoin, t).last_packet == m.last_packet,
        m.understood(packet, rejoin, t).probe_at == m.probe_at,
        m.understood(packet, rejoin, t).buds == (match packet {
            Packet::AddressReport { address, extra } => m.address_noted(
                address,
                extra,
                t.now,
            ).buds,
            _ => m.buds,
        }),
{
    match packet {
        Packet::HandshakeAck => {},
        Packet::FeaturesAck => {},
        Packet::Battery(entries) => {
            battery_keeps(m, entries, t);
        },
        Packet::EarDetection { primary, secondary } => {
            rejoin_keeps(m, rejoin, t);
        },
        Packet::Control(ControlState::OwnsConnection(owns)) => {
            ownership_keeps(m, owns, t);
        },
        Packet::Control(_) => {},
        Packet::Metadata(md) => {},
        Packet::ConversationalAwarenessLevel(_) => {},
        Packet::AddressReport { address, extra } => {
            address_keeps(m, address, extra, t);
        },
        Packet::AudioSource { address, state } => {
            handoff_event_keeps(m, handoff::Event::AudioSource { address, state }, t);
        },
        Packet::ConnectedDevices { devices, .. } => {
            rejoin_keeps(m, rejoin, t);
            let m1 = m.rejoin_seen(rejoin, t);
            handoff_keeps(
                m1,
                handoff::on_devices(m1.handoff, addresses_of(devices@), t.now),
                t,
            );
        },
        Packet::SmartRouting { sender, body } => {
            rejoin_keeps(m, rejoin, t);
            handoff_event_keeps(
                m.rejoin_seen(rejoin, t),
                handoff::Event::SmartRouting {
                    sender,
                    requests_yield: occurs_in(body@, encode_utf8(OWNERSHIP_TO_FALSE@)),
                },
                t,
            );
        },
        Packet::Unknown { .. } => {},
    }
}

/// No packet opens, closes, dials or suppresses anything: what the accessory
/// says never changes who may dial.
pub proof fn packets_carry_no_authority(
    m: SessionModel,
    packet: Result<Packet, DecodeError>,
    rejoin: Option<rejoin::Pending>,
    t: Moment,
)
    ensures
        m.keeps_authority(m.heard(packet, rejoin, t)),
{
    let m1 = SessionModel { last_packet: Some(t.now), probe_at: None, ..m };
    if let Ok(p) = packet {
        understood_keeps(m1, p, rejoin, t);
    }
}

/// Whatever the accessory says answers the idle probe, and the silence starts
/// anew.
pub proof fn every_packet_answers_the_probe(
    m: SessionModel,
    packet: Result<Packet, DecodeError>,
    rejoin: Option<rejoin::Pending>,
    t: Moment,
)
    ensures
        m.heard(packet, rejoin, t).probe_at is None,
        m.heard(packet, rejoin, t).last_packet == Some(t.now),
{
    let m1 = SessionModel { last_packet: Some(t.now), probe_at: None, ..m };
    if let Ok(p) = packet {
        understood_keeps(m1, p, rejoin, t);
    }
}

/// The first variant that produces a battery packet is used for good: it is
/// pinned by that packet and by nothing else, and nothing unpins it.
pub proof fn the_proven_variant_sticks(
    m: SessionModel,
    packet: Result<Packet, DecodeError>,
    rejoin: Option<rejoin::Pending>,
    t: Moment,
)
    ensures
        m.locked is Some ==> m.heard(packet, rejoin, t).locked == m.locked,
        m.locked is None ==> m.heard(packet, rejoin, t).locked == (if packet matches Ok(p)
            && p is Battery {
            Some(m.active)
        } else {
            None
        }),
{
    let m1 = SessionModel { last_packet: Some(t.now), probe_at: None, ..m };
    if let Ok(p) = packet {
        understood_keeps(m1, p, rejoin, t);
    }
}

/// At most two bud addresses are remembered, and two that are remembered
/// differ, whatever packet arrives.
pub proof fn two_buds_are_remembered(
    m: SessionModel,
    packet: Result<Packet, DecodeError>,
    rejoin: Option<rejoin::Pending>,
    t: Moment,
)
    requires
        m.buds_differ(),
    ensures
        m.heard(packet, rejoin, t).buds_differ(),
{
    let m1 = SessionModel { last_packet: Some(t.now), probe_at: None, ..m };
    if let Ok(p) = packet {
        understood_keeps(m1, p, rejoin, t);
        reveal(SessionModel::address_noted);
    }
}

/// Ear detection is never a handoff: it touches neither the switching state,
/// nor its queue, nor the local card, nor the link.
pub proof fn ear_detection_is_no_handoff(m: SessionModel, event: ear_media::Event, t: Moment)
    ensures
        m.keeps_handoff(m.ear_event(event, t)),
        m.keeps_authority(m.ear_event(event, t)),
        m.ear_event(event, t).route == m.route,
{
    ear_keeps(m, event, t);
}

/// A readback is never a reason to connect anything: without a local link and
/// without an AAP link it is given up, and no dial is armed.
pub proof fn a_readback_without_a_link_is_given_up(m: SessionModel, t: Moment)
    requires
        !m.acl,
        !m.open,
    ensures
        !m.verification(t).1,
        m.verification(t).0.dial_at == m.dial_at,
        m.verification(t).0.dial_kind == m.dial_kind,
        (m.verify_at matches Some(at) && t.now >= at) ==> m.verification(t).0.verify_at is None
            && m.verification(t).0.verify_budget is None,
{
    reveal(SessionModel::readback_finished);
    reveal(SessionModel::abandoned);
    let m1 = SessionModel { readback_at: None, verify_budget: None, ..m }.publish(
        Update::VerifyCompleted,
    );
    handoff_event_keeps(m1, handoff::Event::OpeningSettled, t);
}

/// The settings dump is judged once: when its window closes, the window and
/// the budget are gone.
pub proof fn a_dump_is_judged_once(m: SessionModel, t: Moment)
    requires
        m.readback_at matches Some(at) && t.now >= at,
    ensures
        m.dump_judged(t).readback_at is None,
        m.dump_judged(t).verify_budget is None,
        m.dump_judged(t).dump_judged(t) == m.dump_judged(t),
{
    reveal(SessionModel::readback_finished);
    let m1 = SessionModel { readback_at: None, verify_budget: None, ..m }.publish(
        Update::VerifyCompleted,
    );
    handoff_event_keeps(m1, handoff::Event::OpeningSettled, t);
}

/// A pending rejoin is what is shown, also while auto-connect has something
/// pending, and without either nothing is shown.
pub proof fn a_rejoin_outranks_auto_connect(m: SessionModel, t: Moment)
    ensures
        m.rejoin matches Some(p) ==> (m.link_published(t).sequence matches Some(l) && l.rejoin
            && l.seq == p.seq),
        m.rejoin is None && m.auto.pending is Some ==> (m.link_published(t).sequence matches Some(
            l,
        ) && !l.rejoin && l.seq == m.auto.pending->0.seq),
        m.rejoin is None && m.auto.pending is None ==> m.link_published(t).sequence is None
            && m.link_published(t).published is None,
{
    link_keeps(m, t);
}

/// A reconnect sequence keeps the reason and the start it was first shown
/// with, for as long as it is the one pending.
pub proof fn a_sequence_keeps_its_start(m: SessionModel, t: Moment, later: Moment)
    ensures
        m.link_published(t).link_published(later).sequence == m.link_published(t).sequence,
{
    link_keeps(m, t);
    link_keeps(m.link_published(t), later);
}

/// What is shown is what was last published: publishing again says nothing
/// new.
pub proof fn an_unchanged_link_stays_quiet(m: SessionModel, t: Moment, later: Moment)
    ensures
        m.link_published(t).link_published(later).effects == m.link_published(t).effects,
{
    link_keeps(m, t);
    let a = m.link_published(t);
    a_sequence_keeps_its_start(m, t, later);
    link_keeps(a, later);
    reveal(SessionModel::link_published);
}

/// The watchdogs give an open link up only when every repeated request for
/// notifications went unanswered, or when a probe did.
pub proof fn watchdogs_ask_before_they_give_up(m: SessionModel, t: Moment)
    requires
        m.open,
        !m.link_ticked(t).0.open,
    ensures
        m.battery_overdue(t.now) && m.resends >= MAX_NOTIF_RESENDS || idle_rule(
            t.now,
            m.last_packet,
            m.probe_at,
        ) == IdleAction::Recycle,
        m.link_ticked(t).0.suppressed,
        m.link_ticked(t).1 == LinkStep::Nothing,
{
    suppression_leaves_nothing_armed(m, t);
}

/// A packet goes out only on an open link, and a setting or a name only to an
/// accessory that is known to take it.
pub proof fn nothing_is_sent_without_a_link(
    m: SessionModel,
    request: Request,
    model: Seq<char>,
    can_save: bool,
    rejoin: Option<rejoin::Pending>,
    t: Moment,
)
    ensures
        m.planned(request, model, can_save, rejoin, t).1 is Send ==> m.open && (request
            is SetSetting || request is Rename ==> model_refusal(model) is None),
{
}

/// No command by itself opens, closes or dials anything: what it may do is
/// decided by a fresh look at the link that follows.
pub proof fn a_command_arms_nothing_by_itself(
    m: SessionModel,
    request: Request,
    model: Seq<char>,
    can_save: bool,
    rejoin: Option<rejoin::Pending>,
    t: Moment,
)
    ensures
        m.keeps_authority(m.planned(request, model, can_save, rejoin, t).0),
{
    rejoin_keeps(m, rejoin, t);
    auto_keeps(m.rejoin_seen(rejoin, t), autoconnect::Event::ManualCommand, t);
    handoff_event_keeps(m, handoff::Event::TakeOver, t);
    handoff_event_keeps(m, handoff::Event::Yield, t);
}

/// BlueZ is asked to connect a device only on `connect-once`, and only the one
/// that was selected from an explicit pin.
pub proof fn an_explicit_connect_needs_a_pin(
    m: SessionModel,
    request: Request,
    model: Seq<char>,
    can_save: bool,
    rejoin: Option<rejoin::Pending>,
    t: Moment,
)
    ensures
        m.planned(request, model, can_save, rejoin, t).1 matches PlanModel::ConnectOnce {
            adapter,
            device,
        } ==> request is ConnectOnce && m.pinned && m.adapter == Some(adapter) && m.device == Some(
            device,
        ),
{
    rejoin_keeps(m, rejoin, t);
    auto_keeps(m.rejoin_seen(rejoin, t), autoconnect::Event::ManualCommand, t);
}

/// Once the user takes the connection in hand, auto-connect has nothing
/// pending and stays off until the AirPods were away.
pub proof fn auto_connect_stands_back_for_the_user(
    m: SessionModel,
    rejoin: Option<rejoin::Pending>,
    t: Moment,
)
    ensures
        m.manual(rejoin, t).auto.pending is None,
        m.manual(rejoin, t).auto.disarmed,
{
    let m1 = m.rejoin_seen(rejoin, t);
    reveal(SessionModel::auto_event);
    reveal(autoconnect::step);
    let before = autoconnect::AutoConnectState { rejoin_pending: m1.rejoin is Some, ..m1.auto };
    let step = autoconnect::step(before, autoconnect::Event::ManualCommand, t.now);
    let m2 = SessionModel { auto: step.0, ..m1 };
    auto_all_keeps(m2, step.1);
    link_keeps(m2.auto_all(step.1), t);
}

/// Only a setting or a name that went out starts a readback, and it leaves the
/// link alone: the reopen comes later, behind a fresh look.
pub proof fn only_a_silent_write_is_read_back(m: SessionModel, after: AfterSend, t: Moment)
    ensures
        m.keeps_authority(m.sent(after, t)),
        after is Publish ==> m.sent(after, t).verify_at == m.verify_at && m.sent(
            after,
            t,
        ).verify_budget == m.verify_budget,
        !(after is Publish) ==> m.sent(after, t).verify_at is Some && m.sent(
            after,
            t,
        ).verify_budget is Some,
{
}

/// The audio profile is claimed only by the host that owns the audio, and a
/// new claim voids the one before it.
pub proof fn a_claim_needs_the_audio(m: SessionModel)
    ensures
        m.claimed().1 matches Some((_, _, epoch)) ==> m.handoff.owns() && m.control_audio && epoch
            == m.claimed().0.claim_epoch && epoch != m.claim_epoch,
        m.claimed().1 is None ==> m.claimed().0 == m,
{
}

impl SessionModel {
    /// An AAP link is open only over a local link.
    pub open spec fn grounded(self) -> bool {
        self.open ==> self.acl
    }
}

proof fn reopened_keeps(m: SessionModel, t: Moment)
    ensures
        !m.reopened(t).open,
        m.reopened(t).acl == m.acl,
        m.reopened(t).generation == m.generation,
        m.reopened(t).suppressed == m.suppressed,
{
    reveal(SessionModel::reopened);
    closed_keeps(m, t);
}

/// An AAP link is never open without a local link, whatever is observed: no
/// link event and no packet changes that.
pub proof fn an_open_link_is_local(
    m: SessionModel,
    event: LinkEvent,
    packet: Result<Packet, DecodeError>,
    rejoin: Option<rejoin::Pending>,
    t: Moment,
)
    requires
        m.grounded(),
    ensures
        m.on_link(event, rejoin, t).grounded(),
        m.heard(packet, rejoin, t).grounded(),
        m.suppress(t).grounded(),
        m.reopened(t).grounded(),
{
    packets_carry_no_authority(m, packet, rejoin, t);
    suppression_leaves_nothing_armed(m, t);
    reopened_keeps(m, t);
    match event {
        LinkEvent::Identity { adapter, address, name, model_id, pinned } => {
            disowned_keeps(m, pinned, rejoin, t);
            reveal(SessionModel::identified);
        },
        LinkEvent::AudioTransport => {
            handoff_event_keeps(m, handoff::Event::AudioLinkChanged, t);
        },
        LinkEvent::A2dpTransport { active, .. } => {
            handoff_event_keeps(m, handoff::Event::A2dpTransport { active }, t);
        },
        LinkEvent::Disconnected { reason, .. } => {
            dropped_keeps(m, Reason::of_name(reason@), rejoin, t);
        },
        LinkEvent::Connected(connected) => {
            if connected {
                let r = found_keeps(m, rejoin, t);
                reveal(SessionModel::connected);
            } else {
                lost_keeps(m, rejoin, t);
            }
        },
        LinkEvent::AdapterGone => {
            lost_keeps(m, rejoin, t);
        },
        _ => {},
    }
}

/// Time alone opens nothing: a tick leaves the link and its dial as they were,
/// and the timers that follow it only ever end a link or take it down to open
/// it again.
pub proof fn time_alone_opens_nothing(
    m: SessionModel,
    rejoin: Option<rejoin::Pending>,
    fresh: Result<bool, String>,
    t: Moment,
)
    ensures
        m.keeps_authority(m.ticked(rejoin, t)),
        m.keeps_authority(m.verification(t).0),
        m.keeps_authority(m.verify_expired(t)),
        m.verify_checked(fresh, t).open ==> m.open,
        m.link_ticked(t).0.open ==> m.open,
        m.link_ticked(t).1 == LinkStep::Dial ==> m.acl && !m.open && m.link_ticked(t).0 == m,
{
    reveal(SessionModel::ticked);
    reveal(SessionModel::readback_finished);
    reveal(SessionModel::abandoned);
    let m1 = m.handoff_event(handoff::Event::Tick, t);
    handoff_event_keeps(m, handoff::Event::Tick, t);
    let m2 = m1.ear_event(ear_media::Event::Tick, t);
    ear_keeps(m1, ear_media::Event::Tick, t);
    let m3 = m2.rejoin_seen(rejoin, t);
    rejoin_keeps(m2, rejoin, t);
    auto_keeps(m3, autoconnect::Event::Tick, t);
    handoff_event_keeps(
        SessionModel { readback_at: None, verify_budget: None, ..m }.publish(
            Update::VerifyCompleted,
        ),
        handoff::Event::OpeningSettled,
        t,
    );
    reopened_keeps(m.publish(Update::VerifyReopening), t);
    suppression_leaves_nothing_armed(m, t);
}

} // verus!
