//! What the supervisor does about links, packets and commands.
use super::session::{
    a_handoff_event, an_auto_connect_event, an_ear_event, an_ended_link, said, waiting,
};
use crate::aap::codec::{
    BatteryEntry, ControlState, DecodeError, FeaturesVariant, Metadata, Packet,
};
use crate::aap::session::command::{AfterSend, HandoffStepModel, PlanModel};
use crate::aap::session::link::addresses_of;
use crate::aap::session::opening::HandoffOptions;
use crate::aap::session::{
    rejoin_keeps, DialKind, EffectModel, Moment, SessionConfig, SessionModel,
};
use crate::address::Address;
use crate::audio_route::RouteMode;
use crate::autoconnect;
use crate::autoconnect::AutoConnectState;
use crate::bluez::LinkEvent;
use crate::ctl_proto::Request;
use crate::ear_media;
use crate::ear_media::EarMediaModel;
use crate::handoff;
use crate::handoff::HandoffModel;
use crate::mpris::{MprisModel, PlaybackReading};
use crate::rejoin;
use crate::rejoin::Reason;
use crate::settings::SettingCommand;
use crate::state::{EarState, HandoffOwner, NoiseControlMode};
use crate::store::Update;
use vstd::prelude::*;
use vstd::string::*;

verus! {

/// The number after `n`, and zero after the largest.
pub open spec fn next(n: u64) -> u64 {
    if n == 0xffff_ffff_ffff_ffff {
        0
    } else {
        (n + 1) as u64
    }
}

// ---------------------------------------------------------------------------
// Links
// ---------------------------------------------------------------------------

/// A classic link that comes up arms one dial, eight tenths of a second later,
/// for a link with a number of its own; one that was up already arms nothing.
/// Either way it is published and both machines are told.
pub proof fn a_classic_link_comes_up(
    m: SessionModel,
    rejoin: Option<rejoin::Pending>,
    t: Moment,
)
    requires
        t.now + 800_000_000 <= u128::MAX,
    ensures
        ({
            let after = m.on_link(LinkEvent::Connected(true), rejoin, t);
            &&& after.acl && after.open == m.open
            &&& after.auto == autoconnect::step(
                AutoConnectState { rejoin_pending: rejoin is Some, ..m.auto },
                autoconnect::Event::LocalConnected,
                t.now,
            ).0
            &&& after.handoff == (HandoffModel {
                audio_changed: Some(t.now),
                last_event: after.handoff.last_event,
                ..m.handoff
            })
            &&& after.rejoin == rejoin
            &&& m.acl ==> after.generation == m.generation && after.dial_kind == m.dial_kind
                && after.dial_at == m.dial_at && after.suppressed == m.suppressed && after.buds
                == m.buds && after.dial_attempt == m.dial_attempt && after.effects.last()
                == EffectModel::Publish(Update::AclConnected(true))
            &&& !m.acl ==> after.generation == next(m.generation) && after.dial_kind == Some(
                DialKind::Automatic,
            ) && after.dial_at == Some((t.now + 800_000_000) as u128) && !after.suppressed
                && after.buds.len() == 0 && after.dial_attempt == 0 && after.effects.last()
                == EffectModel::LinkSessionStarted && after.effects[after.effects.len() - 2]
                == EffectModel::Publish(Update::AclConnected(true))
        }),
{
    reveal(SessionModel::found);
    reveal(SessionModel::connected);
    let m1 = m.rejoin_seen(rejoin, t);
    rejoin_keeps(m, rejoin, t);
    let e = autoconnect::Event::LocalConnected;
    let m2 = m1.auto_event(e, t);
    an_auto_connect_event(m1, e, t);
    crate::aap::session::auto_keeps(m1, e, t);
    a_handoff_event(m2, handoff::Event::AudioLinkChanged, t);
    super::handoff::notes_are_taken(m2.handoff, t.now);
}

/// A classic link that goes down, or an adapter that goes away, ends the AAP
/// link, disarms the dial and is published last.
pub proof fn a_classic_link_goes_down(
    m: SessionModel,
    event: LinkEvent,
    rejoin: Option<rejoin::Pending>,
    t: Moment,
)
    requires
        event == LinkEvent::Connected(false) || event == LinkEvent::AdapterGone,
    ensures
        ({
            let after = m.on_link(event, rejoin, t);
            &&& !after.acl && !after.open && after.dial_kind is None && after.dial_at is None
            &&& after.generation == (if m.acl || m.adapter is Some {
                next(m.generation)
            } else {
                m.generation
            })
            &&& after.auto == autoconnect::step(
                AutoConnectState { rejoin_pending: rejoin is Some, ..m.auto },
                autoconnect::Event::LocalDisconnected { reason: Reason::Unknown },
                t.now,
            ).0
            &&& !after.handoff.link_up && after.handoff.audio_changed == Some(t.now)
            &&& after.rejoin == rejoin
            &&& after.effects.last() == EffectModel::Publish(Update::AclConnected(false))
            &&& after.route != Some(RouteMode::Yielded)
            &&& after.adapter == m.adapter && after.device == m.device && after.pinned == m.pinned
        }),
{
    reveal(SessionModel::lost);
    reveal(SessionModel::disconnected);
    let m1 = m.rejoin_seen(rejoin, t);
    rejoin_keeps(m, rejoin, t);
    let e = autoconnect::Event::LocalDisconnected { reason: Reason::Unknown };
    let m2 = m1.auto_event(e, t);
    an_auto_connect_event(m1, e, t);
    crate::aap::session::auto_keeps(m1, e, t);
    let m3 = m2.handoff_event(handoff::Event::AudioLinkChanged, t);
    a_handoff_event(m2, handoff::Event::AudioLinkChanged, t);
    super::handoff::notes_are_taken(m2.handoff, t.now);
    let m4 = SessionModel {
        acl: false,
        dial_at: None,
        dial_kind: None,
        generation: if m3.acl || m3.adapter is Some {
            next(m3.generation)
        } else {
            m3.generation
        },
        ..m3
    };
    an_ended_link(m4, t);
    super::handoff::a_link_starts_from_nothing(m4.handoff, t.now, false);
    crate::aap::session::closed_keeps(m4, t);
}

/// The same identity again changes nothing but what is published.
pub proof fn the_same_identity_again(
    m: SessionModel,
    adapter: Address,
    address: Address,
    name: Option<String>,
    model_id: Option<String>,
    pinned: bool,
    rejoin: Option<rejoin::Pending>,
    t: Moment,
)
    requires
        m.adapter == Some(adapter),
        m.device == Some(address),
        m.pinned == pinned,
    ensures
        ({
            let event = LinkEvent::Identity { adapter, address, name, model_id, pinned };
            let after = m.on_link(event, rejoin, t);
            &&& after.acl == m.acl && after.open == m.open && after.dial_kind == m.dial_kind
            &&& after.dial_at == m.dial_at && after.generation == m.generation && after.suppressed
                == m.suppressed
            &&& after.adapter == m.adapter && after.device == m.device && after.pinned == m.pinned
            &&& after.handoff == (HandoffModel { local: Some(adapter), ..m.handoff })
            &&& after.ear == m.ear && after.auto == m.auto && after.rejoin == m.rejoin
                && after.route == m.route
            &&& after.effects == m.effects.push(
                EffectModel::Publish(Update::Identity { address, name, model_id }),
            )
        }),
{
    let event = LinkEvent::Identity { adapter, address, name, model_id, pinned };
    let after = m.on_link(event, rejoin, t);
    let m3 = m.identified(adapter, address);
    assert(!m.identity_changes(adapter, address, pinned));
    lemma_identified(m, adapter, address);
    assert(after == m3.publish(Update::Identity { address, name, model_id }));
}

/// Another identity has nothing of the old one's authority.
pub proof fn another_identity(
    m: SessionModel,
    adapter: Address,
    address: Address,
    name: Option<String>,
    model_id: Option<String>,
    pinned: bool,
    rejoin: Option<rejoin::Pending>,
    t: Moment,
)
    requires
        m.adapter != Some(adapter) || m.device != Some(address) || m.pinned != pinned,
    ensures
        ({
            let event = LinkEvent::Identity { adapter, address, name, model_id, pinned };
            let after = m.on_link(event, rejoin, t);
            &&& after.adapter == Some(adapter) && after.device == Some(address) && after.pinned
                == pinned
            &&& after.handoff.local == Some(adapter)
            &&& after.effects.last() == EffectModel::Publish(
                Update::Identity { address, name, model_id },
            )
            &&& !after.acl && !after.open && after.dial_kind is None && after.dial_at is None
            &&& after.generation == next(m.generation) && after.rejoin == rejoin
            &&& after.effects.contains(EffectModel::Publish(Update::AclConnected(false)))
        }),
{
    lemma_disowned(m, pinned, rejoin, t);
    let m3 = m.disowned(pinned, rejoin, t);
    let event = LinkEvent::Identity { adapter, address, name, model_id, pinned };
    let after = m.on_link(event, rejoin, t);
    assert(after == m3.identified(adapter, address).publish(
        Update::Identity { address, name, model_id },
    ));
    lemma_identified(m3, adapter, address);
    let gone = EffectModel::Publish(Update::AclConnected(false));
    let k = choose|k: int| 0 <= k < m3.effects.len() && m3.effects[k] == gone;
    assert(after.effects[k] == gone);
}

proof fn lemma_identified(m: SessionModel, adapter: Address, address: Address)
    ensures
        m.identified(adapter, address) == (SessionModel {
            adapter: Some(adapter),
            device: Some(address),
            handoff: HandoffModel { local: Some(adapter), ..m.handoff },
            ..m
        }),
{
    reveal(SessionModel::identified);
}

proof fn lemma_disowned(
    m: SessionModel,
    pinned: bool,
    rejoin: Option<rejoin::Pending>,
    t: Moment,
)
    ensures
        ({
            let after = m.disowned(pinned, rejoin, t);
            &&& !after.acl && !after.open && after.dial_kind is None && after.dial_at is None
            &&& after.pinned == pinned && after.generation == next(m.generation) && after.rejoin
                == rejoin
            &&& after.effects.contains(EffectModel::Publish(Update::AclConnected(false)))
        }),
{
    let m1 = SessionModel {
        generation: next(m.generation),
        acl: false,
        pinned,
        dial_at: None,
        dial_kind: None,
        ..m
    };
    crate::aap::session::closed_keeps(m1, t);
    let m2 = m1.closed(t).publish(Update::AclConnected(false));
    rejoin_keeps(m2, rejoin, t);
    lemma_rejoin_effects(m2, rejoin, t);
    let m3 = m2.rejoin_seen(rejoin, t);
    assert(m3 == m.disowned(pinned, rejoin, t)) by {
        reveal(SessionModel::disowned);
    }
    let k = m2.effects.len() - 1;
    assert(m2.effects[k] == EffectModel::Publish(Update::AclConnected(false)));
    assert(m3.effects[k] == m2.effects[k]);
}

proof fn lemma_rejoin_effects(m: SessionModel, rejoin: Option<rejoin::Pending>, t: Moment)
    ensures
        m.rejoin_seen(rejoin, t).effects.len() >= m.effects.len(),
        forall|k: int|
            0 <= k < m.effects.len() ==> m.rejoin_seen(rejoin, t).effects[k]
                == #[trigger] m.effects[k],
{
    reveal(SessionModel::rejoin_seen);
    reveal(SessionModel::link_published);
}

/// A disconnect with its reason stops driving the card and is told to
/// auto-connect with that reason.
pub proof fn a_disconnect_has_a_reason(
    m: SessionModel,
    event: LinkEvent,
    rejoin: Option<rejoin::Pending>,
    t: Moment,
)
    requires
        event is Disconnected,
    ensures
        ({
            let after = m.on_link(event, rejoin, t);
            let reason = event->Disconnected_reason;
            let why = if reason@ == "org.bluez.Reason.Timeout"@ {
                Reason::Timeout
            } else if reason@ == "org.bluez.Reason.Local"@ {
                Reason::Local
            } else if reason@ == "org.bluez.Reason.Remote"@ {
                Reason::Remote
            } else if reason@ == "org.bluez.Reason.Authentication"@ {
                Reason::Authentication
            } else if reason@ == "org.bluez.Reason.Suspend"@ {
                Reason::Suspend
            } else {
                Reason::Unknown
            };
            &&& after.route is None
            &&& after.auto == autoconnect::step(
                AutoConnectState { rejoin_pending: m.rejoin is Some, ..m.auto },
                autoconnect::Event::LocalDisconnected { reason: why },
                t.now,
            ).0
            &&& after.rejoin == rejoin
            &&& after.acl == m.acl && after.open == m.open && after.dial_kind == m.dial_kind
                && after.generation == m.generation && after.handoff == m.handoff
        }),
{
    reveal(SessionModel::dropped);
    reveal(SessionModel::unrouted);
    let m1 = m.unrouted();
    let reason = event->Disconnected_reason;
    let e = autoconnect::Event::LocalDisconnected { reason: Reason::of_name(reason@) };
    an_auto_connect_event(m1, e, t);
    crate::aap::session::auto_keeps(m1, e, t);
    rejoin_keeps(m1.auto_event(e, t), rejoin, t);
}

/// What the other link events say is noted by the handoff machine or nowhere.
pub proof fn other_link_events(
    m: SessionModel,
    event: LinkEvent,
    rejoin: Option<rejoin::Pending>,
    t: Moment,
)
    ensures
        event is WatchEnded || event is HandsFreeTransport ==> m.on_link(event, rejoin, t) == m,
        event is AudioTransport ==> m.on_link(event, rejoin, t) == m.handoff_event(
            handoff::Event::AudioLinkChanged,
            t,
        ),
        event matches LinkEvent::A2dpTransport { active, .. } ==> m.on_link(event, rejoin, t)
            == m.handoff_event(handoff::Event::A2dpTransport { active }, t),
        event matches LinkEvent::AdapterAppleId(id) ==> m.on_link(event, rejoin, t) == (
        SessionModel {
            handoff: HandoffModel { apple_host_id: id, ..m.handoff },
            effects: m.effects.push(EffectModel::PublishHandoff),
            ..m
        }),
{
}

// ---------------------------------------------------------------------------
// Packets
// ---------------------------------------------------------------------------

/// What the state is once any packet came.
pub open spec fn answered(m: SessionModel, t: Moment) -> SessionModel {
    SessionModel { last_packet: Some(t.now), probe_at: None, ..m }
}

/// The state, and one more thing published.
pub open spec fn publishing(m: SessionModel, update: Update) -> SessionModel {
    SessionModel { effects: m.effects.push(EffectModel::Publish(update)), ..m }
}

/// A control, a setting or metadata is published as it was read, and nothing
/// else changes; a packet that says nothing of use is only heard.
pub proof fn plain_packets_are_published(
    m: SessionModel,
    mode: NoiseControlMode,
    on: bool,
    level: u8,
    setting: SettingCommand,
    md: Metadata,
    payload: Vec<u8>,
    rejoin: Option<rejoin::Pending>,
    t: Moment,
)
    ensures
        m.heard(Ok(Packet::Control(ControlState::NoiseControl(mode))), rejoin, t) == publishing(
            answered(m, t),
            Update::NoiseControl(mode),
        ),
        m.heard(Ok(Packet::Control(ControlState::ConversationalAwareness(on))), rejoin, t)
            == publishing(answered(m, t), Update::ConversationalAwareness(on)),
        m.heard(Ok(Packet::Control(ControlState::AdaptiveLevel(level))), rejoin, t) == publishing(
            answered(m, t),
            Update::AdaptiveLevel(level),
        ),
        m.heard(Ok(Packet::Control(ControlState::Setting(setting))), rejoin, t) == publishing(
            answered(m, t),
            Update::Setting(setting),
        ),
        m.heard(Ok(Packet::Metadata(md)), rejoin, t) == publishing(
            answered(m, t),
            Update::Metadata(md),
        ),
        m.heard(Ok(Packet::HandshakeAck), rejoin, t) == answered(m, t),
        m.heard(Ok(Packet::FeaturesAck), rejoin, t) == answered(m, t),
        m.heard(Ok(Packet::ConversationalAwarenessLevel(level)), rejoin, t) == answered(m, t),
        m.heard(Ok(Packet::Unknown { opcode: 0, payload }), rejoin, t) == answered(m, t),
        m.heard(
            Ok(Packet::Control(ControlState::Other { id: level, value: level })),
            rejoin,
            t,
        ) == answered(m, t),
        m.heard(Err(DecodeError::Truncated), rejoin, t) == answered(m, t),
{
}

/// A battery reading is published, proves the variant in use unless one was
/// proven, and ends the dump that was awaited.
pub proof fn a_battery_packet(
    m: SessionModel,
    entries: Vec<BatteryEntry>,
    rejoin: Option<rejoin::Pending>,
    t: Moment,
)
    ensures
        ({
            let after = m.heard(Ok(Packet::Battery(entries)), rejoin, t);
            &&& after.battery_seen
            &&& after.locked == (if m.locked is Some {
                m.locked
            } else {
                Some(m.active)
            })
            &&& after.last_packet == Some(t.now) && after.probe_at is None
            &&& after.effects[m.effects.len() as int] == EffectModel::Publish(
                Update::Battery(entries),
            )
            &&& m.readback_at is None ==> after == (SessionModel {
                battery_seen: true,
                locked: after.locked,
                effects: m.effects.push(EffectModel::Publish(Update::Battery(entries))),
                ..answered(m, t)
            })
            &&& m.readback_at is Some ==> after.readback_at is None && after.verify_budget is None
                && after.handoff.opening_settled && after.effects == m.effects.push(
                EffectModel::Publish(Update::Battery(entries)),
            ).push(EffectModel::Publish(Update::VerifyCompleted)).push(EffectModel::PublishHandoff)
        }),
{
    let m1 = SessionModel {
        battery_seen: true,
        locked: if m.locked is Some {
            m.locked
        } else {
            Some(m.active)
        },
        effects: m.effects.push(EffectModel::Publish(Update::Battery(entries))),
        ..answered(m, t)
    };
    let after = m.heard(Ok(Packet::Battery(entries)), rejoin, t);
    if m.readback_at is None {
        assert(after == m1) by {
            reveal(SessionModel::battery_heard);
        }
    } else {
        assert(after == m1.readback_finished(t)) by {
            reveal(SessionModel::battery_heard);
        }
        lemma_finished(m1, t);
    }
}

proof fn lemma_finished(m: SessionModel, t: Moment)
    ensures
        ({
            let after = m.readback_finished(t);
            &&& after.readback_at is None && after.verify_budget is None
                && after.handoff.opening_settled
            &&& after.battery_seen == m.battery_seen && after.locked == m.locked
                && after.last_packet == m.last_packet && after.probe_at == m.probe_at
            &&& after.effects == m.effects.push(EffectModel::Publish(Update::VerifyCompleted)).push(
                EffectModel::PublishHandoff,
            )
        }),
{
    reveal(SessionModel::readback_finished);
    let m1 = SessionModel {
        readback_at: None,
        verify_budget: None,
        effects: m.effects.push(EffectModel::Publish(Update::VerifyCompleted)),
        ..m
    };
    a_handoff_event(m1, handoff::Event::OpeningSettled, t);
    super::handoff::notes_are_taken(m1.handoff, t.now);
    let actions = handoff::step(m1.handoff, handoff::Event::OpeningSettled, t.now).1;
    super::session::lemma_said_last(actions);
    assert(m1.effects + said(actions) =~= m1.effects);
}

/// An ear reading is published primary before secondary, and then resolved.
pub proof fn an_ear_packet(
    m: SessionModel,
    primary: EarState,
    secondary: EarState,
    rejoin: Option<rejoin::Pending>,
    t: Moment,
)
    ensures
        ({
            let after = m.heard(Ok(Packet::EarDetection { primary, secondary }), rejoin, t);
            let n = after.effects.len() as int;
            &&& n >= m.effects.len() + 2
            &&& after.effects[n - 2] == EffectModel::Publish(Update::Ear { primary, secondary })
            &&& after.effects[n - 1] == EffectModel::ResolveEar
            &&& after.handoff == m.handoff && after.ear == m.ear && after.rejoin == rejoin
        }),
{
    rejoin_keeps(answered(m, t), rejoin, t);
    lemma_rejoin_effects(answered(m, t), rejoin, t);
}

/// What the AirPods say of ownership goes to the handoff machine, as part of
/// the dump while the link opens or its dump is awaited; where handoff is on
/// the card follows it.
pub proof fn an_ownership_packet(
    m: SessionModel,
    owns: bool,
    rejoin: Option<rejoin::Pending>,
    t: Moment,
)
    ensures
        ({
            let after = m.heard(
                Ok(Packet::Control(ControlState::OwnsConnection(owns))),
                rejoin,
                t,
            );
            let opening = !m.open || m.readback_at is Some;
            let m1 = answered(m, t).handoff_event(
                handoff::Event::OwnsConnection { owns, opening },
                t,
            );
            let mode = if owns {
                RouteMode::Own
            } else {
                RouteMode::Yielded
            };
            &&& !m.handoff.enabled || !m.control_audio || m.device is None ==> after == m1
            &&& m.handoff.enabled && m.control_audio && m.device is Some ==> after == (
            SessionModel {
                route: Some(mode),
                effects: m1.effects.push(EffectModel::Route { device: m.device->0, mode }),
                ..m1
            })
        }),
{
    let opening = !m.open || m.readback_at is Some;
    let e = handoff::Event::OwnsConnection { owns, opening };
    let m1 = answered(m, t).handoff_event(e, t);
    crate::aap::session::handoff_event_keeps(answered(m, t), e, t);
    super::handoff::losing_ownership_gives_the_audio_up(m.handoff, owns, opening, t.now);
    assert(m1.handoff.enabled == m.handoff.enabled) by {
        assert(crate::aap::session::unrecorded(m1.handoff).enabled == m.handoff.enabled);
    }
    reveal(SessionModel::ownership_heard);
    reveal(SessionModel::routed);
}

/// An audio source, a list of hosts and a relayed request go to the handoff
/// machine.
pub proof fn host_packets_go_to_the_handoff_machine(
    m: SessionModel,
    packet: Packet,
    rejoin: Option<rejoin::Pending>,
    t: Moment,
)
    ensures
        packet matches Packet::AudioSource { address, state } ==> m.heard(Ok(packet), rejoin, t)
            == answered(m, t).handoff_event(handoff::Event::AudioSource { address, state }, t),
        packet matches Packet::SmartRouting { sender, body } ==> {
            let key = "audioRoutingSetOwnershipToFalse"@;
            let asks = exists|at: int|
                0 <= at <= body@.len() - vstd::utf8::encode_utf8(key).len()
                    && #[trigger] body@.subrange(at, at + vstd::utf8::encode_utf8(key).len())
                    == vstd::utf8::encode_utf8(key);
            m.heard(Ok(packet), rejoin, t) == answered(m, t).rejoin_seen(rejoin, t).handoff_event(
                handoff::Event::SmartRouting { sender, requests_yield: asks },
                t,
            )
        },
        packet matches Packet::ConnectedDevices { devices, .. } ==> m.heard(
            Ok(packet),
            rejoin,
            t,
        ).handoff.devices == devices@.map_values(
            |d: crate::aap::codec::ConnectedDevice| d.address,
        ),
{
    match packet {
        Packet::ConnectedDevices { devices, .. } => {
            let m1 = answered(m, t).rejoin_seen(rejoin, t);
            rejoin_keeps(answered(m, t), rejoin, t);
            let step = handoff::on_devices(m1.handoff, addresses_of(devices@), t.now);
            crate::aap::session::handoff_keeps(m1, step, t);
            assert(addresses_of(devices@) =~= devices@.map_values(
                |d: crate::aap::codec::ConnectedDevice| d.address,
            ));
            let after = m.heard(Ok(packet), rejoin, t);
            assert(crate::aap::session::unrecorded(after.handoff).devices == step.0.devices);
        },
        Packet::SmartRouting { sender, body } => {
            let key = vstd::utf8::encode_utf8("audioRoutingSetOwnershipToFalse"@);
            let asks = exists|at: int|
                0 <= at <= body@.len() - key.len() && #[trigger] body@.subrange(at, at + key.len())
                    == key;
            if crate::text::occurs_in(body@, key) {
                let at = choose|at: int| crate::text::occurs_at(body@, key, at);
                assert(body@.subrange(at, at + key.len()) == key);
            }
            if asks {
                let at = choose|at: int|
                    0 <= at <= body@.len() - key.len() && #[trigger] body@.subrange(
                        at,
                        at + key.len(),
                    ) == key;
                assert(crate::text::occurs_at(body@, key, at));
            }
        },
        _ => {},
    }
}

/// An address report counts where its last byte is 2, it is not this host's
/// and not the one before; the last two are kept with their times.
pub proof fn an_address_packet(
    m: SessionModel,
    address: Address,
    extra: [u8; 2],
    rejoin: Option<rejoin::Pending>,
    t: Moment,
)
    requires
        m.buds.len() <= 2,
    ensures
        ({
            let after = m.heard(Ok(Packet::AddressReport { address, extra }), rejoin, t);
            let n = m.buds.len() as int;
            let counts = extra[1] == 2 && m.adapter != Some(address) && !(n > 0 && m.buds[n - 1].0
                == address);
            &&& !counts ==> after == answered(m, t)
            &&& counts ==> after == (SessionModel { buds: after.buds, ..answered(m, t) })
            &&& counts && n == 0 ==> after.buds == seq![(address, t.now)]
            &&& counts && n == 1 ==> after.buds == seq![m.buds[0], (address, t.now)]
            &&& counts && n == 2 ==> after.buds == seq![m.buds[1], (address, t.now)]
        }),
{
    reveal(SessionModel::address_noted);
    let after = m.heard(Ok(Packet::AddressReport { address, extra }), rejoin, t);
    let n = m.buds.len() as int;
    let longer = m.buds.push((address, t.now));
    if n == 2 {
        assert(longer.remove(0) =~= seq![m.buds[1], (address, t.now)]);
    } else if n == 1 {
        assert(longer =~= seq![m.buds[0], (address, t.now)]);
    } else {
        assert(longer =~= seq![(address, t.now)]);
    }
}

/// A playback reading is kept and goes to ear detection, then to the handoff
/// machine.
pub proof fn a_playback_reading(m: SessionModel, reading: PlaybackReading, t: Moment)
    ensures
        m.playback_heard(reading, t) == (SessionModel {
            last_playback: Some(reading),
            ..m
        }).ear_event(
            ear_media::Event::Playback { playing: reading.playing, player: reading.player },
            t,
        ).handoff_event(
            handoff::Event::Playback {
                playing: reading.playing,
                app: reading.app,
                player: reading.player,
            },
            t,
        ),
        m.playback_heard(reading, t).ear.playing == Some(reading.playing),
        m.playback_heard(reading, t).handoff.playing == Some(reading.playing),
{
    reveal(SessionModel::playback_heard);
    let m1 = SessionModel { last_playback: Some(reading), ..m };
    let e = ear_media::Event::Playback { playing: reading.playing, player: reading.player };
    let h = handoff::Event::Playback {
        playing: reading.playing,
        app: reading.app,
        player: reading.player,
    };
    an_ear_event(m1, e, t);
    let m2 = m1.ear_event(e, t);
    a_handoff_event(m2, h, t);
    let here = m1.acl && m1.route != Some(RouteMode::Yielded) && (!m1.handoff.enabled || (
    m1.handoff.owner == HandoffOwner::Local && !m1.handoff.released));
    crate::ear_media::the_user_ends_a_pending_resume(
        m1.ear,
        reading.playing,
        reading.player,
        ear_media::Context { audio_on_airpods: here },
        t.now,
    );
    super::handoff::a_start_is_the_users_or_a_players(
        m2.handoff,
        reading.playing,
        reading.app,
        reading.player,
        t.now,
    );
}

/// A tick reaches each machine.
pub proof fn a_tick_reaches_each_machine(
    m: SessionModel,
    rejoin: Option<rejoin::Pending>,
    t: Moment,
)
    ensures
        ({
            let after = m.ticked(rejoin, t);
            let h = handoff::step(m.handoff, handoff::Event::Tick, t.now).0;
            let m1 = m.handoff_event(handoff::Event::Tick, t);
            &&& after.handoff == (HandoffModel { last_event: after.handoff.last_event, ..h })
            &&& after.ear == m1.ear_event(ear_media::Event::Tick, t).ear
            &&& after.rejoin == rejoin
            &&& after.auto == autoconnect::step(
                AutoConnectState { rejoin_pending: rejoin is Some, ..m.auto },
                autoconnect::Event::Tick,
                t.now,
            ).0
            &&& after.queued == m.queued + waiting(
                handoff::step(m.handoff, handoff::Event::Tick, t.now).1,
            )
        }),
{
    reveal(SessionModel::ticked);
    a_handoff_event(m, handoff::Event::Tick, t);
    let m1 = m.handoff_event(handoff::Event::Tick, t);
    an_ear_event(m1, ear_media::Event::Tick, t);
    let m2 = m1.ear_event(ear_media::Event::Tick, t);
    rejoin_keeps(m2, rejoin, t);
    let m3 = m2.rejoin_seen(rejoin, t);
    an_auto_connect_event(m3, autoconnect::Event::Tick, t);
    crate::aap::session::auto_keeps(m3, autoconnect::Event::Tick, t);
}

// ---------------------------------------------------------------------------
// Commands
// ---------------------------------------------------------------------------

/// A control write: the identifier, one value and three zero bytes.
pub open spec fn control_write(id: u8, value: u8) -> Seq<u8> {
    seq![4u8, 0, 4, 0, 9, 0, id, value, 0, 0, 0]
}

proof fn lemma_control_write(id: u8, value: u8)
    ensures
        crate::aap::codec::control_bytes(id, seq![value]) == control_write(id, value),
{
    assert(crate::aap::opcode::PREFIX@ =~= seq![4u8, 0, 4, 0]);
    assert(crate::aap::codec::le_bytes(9) =~= seq![9u8, 0]);
    assert(crate::aap::codec::control_bytes(id, seq![value]) =~= control_write(id, value));
}

/// The plan where the AAP link is open, and the refusal where it is not.
pub open spec fn on_the_link(m: SessionModel, plan: PlanModel) -> PlanModel {
    if m.open {
        plan
    } else {
        PlanModel::Refuse("device is not connected: no AAP link is open"@)
    }
}

/// A plain control is one write, published once it went out; the level is at
/// most 100.
pub proof fn plain_commands_are_one_write(
    m: SessionModel,
    mode: NoiseControlMode,
    on: bool,
    level: u8,
    model: Seq<char>,
    can_save: bool,
    rejoin: Option<rejoin::Pending>,
    t: Moment,
)
    ensures
        ({
            let byte: u8 = match mode {
                NoiseControlMode::Off => 1,
                NoiseControlMode::Anc => 2,
                NoiseControlMode::Transparency => 3,
                NoiseControlMode::Adaptive => 4,
            };
            let most: u8 = if level <= 100 {
                level
            } else {
                100
            };
            &&& m.planned(Request::SetNoiseControl { value: mode }, model, can_save, rejoin, t) == (
                m,
                on_the_link(
                    m,
                    PlanModel::Send {
                        packet: control_write(0x0d, byte),
                        after: AfterSend::Publish(Update::NoiseControl(mode)),
                    },
                ),
            )
            &&& m.planned(
                Request::SetConversationalAwareness { value: on },
                model,
                can_save,
                rejoin,
                t,
            ) == (
                m,
                on_the_link(
                    m,
                    PlanModel::Send {
                        packet: control_write(
                            0x28,
                            if on {
                                1
                            } else {
                                2
                            },
                        ),
                        after: AfterSend::Publish(Update::ConversationalAwareness(on)),
                    },
                ),
            )
            &&& m.planned(Request::SetAdaptiveLevel { value: level }, model, can_save, rejoin, t)
                == (
                m,
                on_the_link(
                    m,
                    PlanModel::Send {
                        packet: control_write(0x2e, most),
                        after: AfterSend::Publish(Update::AdaptiveLevel(most)),
                    },
                ),
            )
        }),
{
    lemma_control_write(0x0d, mode.wire());
    lemma_control_write(
        0x28,
        if on {
            1
        } else {
            2
        },
    );
    lemma_control_write(
        0x2e,
        if level <= 100 {
            level
        } else {
            100
        },
    );
}

/// Commands about the connection: what each needs, and the words where it is
/// missing.
pub proof fn connection_commands(
    m: SessionModel,
    on: bool,
    model: Seq<char>,
    can_save: bool,
    rejoin: Option<rejoin::Pending>,
    t: Moment,
)
    ensures
        m.planned(Request::Status, model, can_save, rejoin, t) == (m, PlanModel::Status),
        m.planned(Request::Subscribe, model, can_save, rejoin, t) == (
            m,
            PlanModel::Refuse("subscribe is served by the control server"@),
        ),
        m.planned(Request::SetHandoff { enabled: on }, model, can_save, rejoin, t) == (
            m,
            if can_save {
                PlanModel::SaveHandoff(on)
            } else {
                PlanModel::Refuse("no configuration file path; handoff setting was not changed"@)
            },
        ),
        m.planned(Request::Reconnect, model, can_save, rejoin, t).1 == PlanModel::Reconnect,
        m.planned(Request::Reconnect, model, can_save, rejoin, t).0.auto.disarmed,
        m.planned(Request::Reconnect, model, can_save, rejoin, t).0.auto.pending is None,
        m.planned(Request::ConnectOnce, model, can_save, rejoin, t).0.auto.disarmed,
        m.planned(Request::ConnectOnce, model, can_save, rejoin, t).1 == (if !m.pinned {
            PlanModel::Refuse(
                "connect-once requires aurisd to be started with a pinned device address"@,
            )
        } else if m.adapter is Some && m.device is Some {
            PlanModel::ConnectOnce { adapter: m.adapter->0, device: m.device->0 }
        } else {
            PlanModel::Refuse("selected Bluetooth device is not known yet"@)
        }),
        ({
            let event = if on {
                handoff::Event::TakeOver
            } else {
                handoff::Event::Yield
            };
            let request = if on {
                Request::TakeOver
            } else {
                Request::Yield
            };
            m.planned(request, model, can_save, rejoin, t) == (if !m.open {
                (m, PlanModel::Refuse("device is not connected: no AAP link is open"@))
            } else if m.adapter is None {
                (m, PlanModel::Refuse("local Bluetooth adapter is not known yet"@))
            } else {
                (m.handoff_event(event, t), PlanModel::Perform)
            })
        }),
{
    let m1 = m.rejoin_seen(rejoin, t);
    rejoin_keeps(m, rejoin, t);
    let e = autoconnect::Event::ManualCommand;
    an_auto_connect_event(m1, e, t);
    crate::aap::session::auto_keeps(m1, e, t);
    super::autoconnect::a_command_disarms(
        AutoConnectState { rejoin_pending: m1.rejoin is Some, ..m1.auto },
        t.now,
    );
}

/// Saving the handoff switch applies it; turned off, a card that was taken off
/// the AirPods is put back.
pub proof fn the_handoff_switch(
    m: SessionModel,
    on: bool,
    rejoin: Option<rejoin::Pending>,
    t: Moment,
)
    ensures
        ({
            let after = m.switched(on, rejoin, t);
            &&& after.handoff == (HandoffModel { enabled: on, ..m.handoff })
            &&& after.rejoin == rejoin
            &&& after.effects.last() == EffectModel::PublishHandoff
            &&& !on && m.route == Some(RouteMode::Yielded) && m.control_audio && m.device is Some
                ==> after.route == Some(RouteMode::Own) && after.effects[m.effects.len() as int]
                == (EffectModel::Route { device: m.device->0, mode: RouteMode::Own })
            &&& on || m.route != Some(RouteMode::Yielded) ==> after.route == m.route
            &&& after.open == m.open && after.acl == m.acl && after.ear == m.ear
        }),
{
    reveal(SessionModel::enabled_as);
    reveal(SessionModel::routed);
    let m1 = m.enabled_as(on);
    let m2 = if !on && m1.route == Some(RouteMode::Yielded) {
        m1.routed(RouteMode::Own)
    } else {
        m1
    };
    rejoin_keeps(m2, rejoin, t);
    lemma_rejoin_effects(m2, rejoin, t);
    if m2.effects.len() > m.effects.len() {
        assert(m2.rejoin_seen(rejoin, t).effects[m.effects.len() as int]
            == m2.effects[m.effects.len() as int]);
    }
}

/// What a queued handoff action takes: a packet where there is a link and, for
/// one that introduces this host, a known adapter; a request to the players;
/// or the card.
pub proof fn queued_actions_are_performed(m: SessionModel, action: handoff::ActionModel)
    ensures
        ({
            let (after, step) = m.performed(action);
            &&& !(action is SetAudioRoute) ==> after == m
            &&& action is PauseLocalPlayers ==> step == HandoffStepModel::Mpris(
                MprisModel::PausePlaying,
            )
            &&& action matches handoff::ActionModel::RepausePlayer { player } ==> step
                == HandoffStepModel::Mpris(
                if player is Some {
                    MprisModel::Pause(player->0)
                } else {
                    MprisModel::PausePlaying
                },
            )
            &&& action is ClaimAudio ==> step == HandoffStepModel::Claim
            &&& action == handoff::ActionModel::SetAudioRoute(RouteMode::Yielded) ==> step
                == HandoffStepModel::YieldRoute && after == m
            &&& action == handoff::ActionModel::SetAudioRoute(RouteMode::Own) ==> step
                == HandoffStepModel::Nothing && after == (if m.control_audio && m.device is Some {
                SessionModel {
                    route: Some(RouteMode::Own),
                    effects: m.effects.push(
                        EffectModel::Route { device: m.device->0, mode: RouteMode::Own },
                    ),
                    ..m
                }
            } else {
                m
            })
            &&& action matches handoff::ActionModel::SendOwnership(owns) ==> step == (if m.open {
                HandoffStepModel::Send(
                    control_write(
                        0x06,
                        if owns {
                            1
                        } else {
                            0
                        },
                    ),
                )
            } else {
                HandoffStepModel::NoLink
            })
            &&& action is SendHijack ==> (m.open ==> step is Send) && (!m.open ==> step is NoLink)
            &&& action is SendMediaInfo || action is SendNewDeviceMediaInfo || action is SendNewTipi
                ==> (m.adapter is None ==> step is Nothing) && (m.adapter is Some && m.open ==> step
                is Send) && (m.adapter is Some && !m.open ==> step is NoLink)
            &&& action is Record || action is StreamNotStarted ==> step is Nothing
        }),
{
    reveal(SessionModel::routed);
    lemma_control_write(0x06, 1);
    lemma_control_write(0x06, 0);
}

/// The audio profile is claimed where both ends are known, profiles may be
/// changed and this host has the audio, each claim under a number of its own.
pub proof fn a_claim_is_made(m: SessionModel)
    ensures
        ({
            let (after, claim) = m.claimed();
            let may = m.adapter is Some && m.device is Some && m.control_audio && m.handoff.owner
                == HandoffOwner::Local && !m.handoff.released;
            &&& claim == (if may {
                Some((m.adapter->0, m.device->0, next(m.claim_epoch)))
            } else {
                None
            })
            &&& after == (if may {
                SessionModel { claim_epoch: next(m.claim_epoch), ..m }
            } else {
                m
            })
        }),
{
}

// ---------------------------------------------------------------------------
// The beginning
// ---------------------------------------------------------------------------

/// A new supervisor has no link, no identity, nothing armed or queued, and may
/// touch nothing outside.
pub proof fn a_new_supervisor_knows_nothing(
    cfg: SessionConfig,
    ear: EarMediaModel,
    auto: AutoConnectState,
)
    ensures
        ({
            let m = SessionModel::fresh(cfg, ear, auto);
            &&& m.cfg == cfg && m.ear == ear && m.auto == auto
            &&& m.adapter is None && m.device is None && !m.pinned
            &&& !m.acl && !m.open && !m.suppressed && m.generation == 0
            &&& m.dial_at is None && m.dial_kind is None && m.dial_attempt == 0
            &&& m.active == FeaturesVariant::D7 && m.locked is None
            &&& m.handshake_at is None && m.last_packet is None && m.probe_at is None
            &&& !m.battery_seen && m.resends == 0
            &&& m.verify_at is None && m.verify_budget is None && m.readback_at is None
            &&& !m.handoff.enabled && m.handoff.take_over_on_play
            &&& m.bt_name == "Mac"@ && !m.control_audio && !m.auto_control
            &&& m.route is None && m.last_playback is None && m.rejoin is None
            &&& m.claim_epoch == 0 && m.auto_epoch == 0
            &&& m.queued.len() == 0 && m.buds.len() == 0 && m.effects.len() == 0
            &&& m.sequence is None && m.published is None
        }),
{
}

/// The configuration sets the switch, what playing does, the announced name
/// and whether profiles may be changed; the section is published again.
pub proof fn the_configuration_is_applied(m: SessionModel, options: HandoffOptions)
    ensures
        ({
            let after = m.configured(options);
            &&& after.handoff == (HandoffModel {
                enabled: options.config.enabled,
                take_over_on_play: options.config.take_over_on_play,
                ..m.handoff
            })
            &&& after.bt_name == options.config.announced_name()
            &&& after.control_audio == options.control_audio_profiles
            &&& after.effects == m.effects.push(EffectModel::PublishHandoff)
            &&& after == (SessionModel {
                handoff: after.handoff,
                bt_name: after.bt_name,
                control_audio: after.control_audio,
                effects: after.effects,
                ..m
            })
        }),
{
    reveal(SessionModel::configured);
}

} // verus!
