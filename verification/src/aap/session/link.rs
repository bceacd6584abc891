//! What the supervisor does about link events and packets.
use super::{
    bump, bumped, DialKind, Effect, EffectModel, Moment, SessionModel, Supervisor, SETTLE,
};
use crate::aap::codec::{
    self, ConnectedDevice, ControlState, DecodeError, Packet, OWNERSHIP_TO_FALSE,
};
use crate::address::Address;
use crate::audio_route::RouteMode;
use crate::autoconnect;
use crate::bluez::LinkEvent;
use crate::clock::Instant;
use crate::ear_media;
use crate::handoff::{self, HandoffModel};
use crate::mpris::PlaybackReading;
use crate::rejoin::{self, ListedHost, Outcome, Reason};
use crate::state::{Ear, EarState};
use crate::store::Update;
use crate::text::occurs_in;
use vstd::prelude::*;
use vstd::string::*;
use vstd::utf8::encode_utf8;

verus! {

/// The hosts of a list, in order.
pub open spec fn addresses_of(devices: Seq<ConnectedDevice>) -> Seq<Address> {
    devices.map_values(|d: ConnectedDevice| d.address)
}

impl SessionModel {
    /// The watcher selected another identity.
    pub open spec fn identity_changes(
        self,
        adapter: Address,
        address: Address,
        pinned: bool,
    ) -> bool {
        self.adapter != Some(adapter) || self.device != Some(address) || self.pinned != pinned
    }

    /// A new identity has no authority inherited from the old one.
    #[verifier::opaque]
    pub open spec fn disowned(
        self,
        pinned: bool,
        rejoin: Option<rejoin::Pending>,
        t: Moment,
    ) -> SessionModel {
        SessionModel {
            generation: bumped(self.generation),
            acl: false,
            pinned,
            dial_at: None,
            dial_kind: None,
            ..self
        }.closed(t).publish(Update::AclConnected(false)).rejoin_seen(rejoin, t)
    }

    /// A local link was observed. A first observation begins a new local-link
    /// period: it is the only signal that arms an automatic dial.
    #[verifier::opaque]
    pub open spec fn connected(self, t: Moment) -> SessionModel {
        if self.acl {
            self
        } else {
            SessionModel {
                acl: true,
                dial_attempt: 0,
                generation: bumped(self.generation),
                suppressed: false,
                buds: Seq::empty(),
                ..self
            }.emit(EffectModel::LinkSessionStarted).armed(
                DialKind::Automatic,
                (t.now + SETTLE) as u128,
            )
        }
    }

    /// The local link is gone.
    #[verifier::opaque]
    pub open spec fn disconnected(self, t: Moment) -> SessionModel {
        SessionModel {
            acl: false,
            dial_at: None,
            dial_kind: None,
            generation: if self.acl || self.adapter is Some {
                bumped(self.generation)
            } else {
                self.generation
            },
            ..self
        }.closed(t).publish(Update::AclConnected(false))
    }

    /// The selected adapter and device.
    #[verifier::opaque]
    pub open spec fn identified(self, adapter: Address, address: Address) -> SessionModel {
        SessionModel {
            adapter: Some(adapter),
            device: Some(address),
            handoff: HandoffModel { local: Some(adapter), ..self.handoff },
            ..self
        }
    }

    /// What a `Disconnected` signal does: the card is gone with the device.
    #[verifier::opaque]
    pub open spec fn dropped(
        self,
        reason: Reason,
        rejoin: Option<rejoin::Pending>,
        t: Moment,
    ) -> SessionModel {
        self.unrouted().auto_event(
            autoconnect::Event::LocalDisconnected { reason },
            t,
        ).rejoin_seen(rejoin, t)
    }

    /// What `Connected=true` does.
    #[verifier::opaque]
    pub open spec fn found(self, rejoin: Option<rejoin::Pending>, t: Moment) -> SessionModel {
        self.rejoin_seen(rejoin, t).auto_event(
            autoconnect::Event::LocalConnected,
            t,
        ).handoff_event(handoff::Event::AudioLinkChanged, t).publish(
            Update::AclConnected(true),
        ).connected(t)
    }

    /// What a link event does. `rejoin` is what the rejoin machine has pending
    /// once it has seen the event too.
    pub open spec fn on_link(
        self,
        event: LinkEvent,
        rejoin: Option<rejoin::Pending>,
        t: Moment,
    ) -> SessionModel {
        match event {
            LinkEvent::Identity { adapter, address, name, model_id, pinned } => {
                let m = if self.identity_changes(adapter, address, pinned) {
                    self.disowned(pinned, rejoin, t)
                } else {
                    self
                };
                m.identified(adapter, address).publish(Update::Identity { address, name, model_id })
            },
            LinkEvent::AdapterAppleId(apple_host_id) => SessionModel {
                handoff: HandoffModel { apple_host_id, ..self.handoff },
                ..self
            }.emit(EffectModel::PublishHandoff),
            LinkEvent::AudioTransport => self.handoff_event(handoff::Event::AudioLinkChanged, t),
            LinkEvent::A2dpTransport { active, .. } => self.handoff_event(
                handoff::Event::A2dpTransport { active },
                t,
            ),
            LinkEvent::HandsFreeTransport { .. } => self,
            LinkEvent::Disconnected { reason, .. } => self.dropped(
                Reason::of_name(reason@),
                rejoin,
                t,
            ),
            LinkEvent::Connected(true) => self.found(rejoin, t),
            LinkEvent::WatchEnded => self,
            LinkEvent::Connected(false) => self.lost(rejoin, t),
            LinkEvent::AdapterGone => self.lost(rejoin, t),
        }
    }

    /// What a bare `Connected=false`, or the loss of the adapter, does. The
    /// `Disconnected` signal carries the reason and usually arrives first;
    /// this makes sure the link state and the absence clock follow a bare
    /// property change too.
    #[verifier::opaque]
    pub open spec fn lost(self, rejoin: Option<rejoin::Pending>, t: Moment) -> SessionModel {
        self.rejoin_seen(rejoin, t).auto_event(
            autoconnect::Event::LocalDisconnected { reason: Reason::Unknown },
            t,
        ).handoff_event(handoff::Event::AudioLinkChanged, t).disconnected(t)
    }

    /// The settings dump ended: what was written is judged.
    #[verifier::opaque]
    pub open spec fn readback_finished(self, t: Moment) -> SessionModel {
        SessionModel { readback_at: None, verify_budget: None, ..self }.publish(
            Update::VerifyCompleted,
        ).handoff_event(handoff::Event::OpeningSettled, t)
    }

    /// An address report. Byte 1 of the trailer is `0x02` on the accessory's
    /// own addresses; a bud's address counts when it differs from the one
    /// before, and the last two are kept.
    #[verifier::opaque]
    pub open spec fn address_noted(
        self,
        address: Address,
        extra: [u8; 2],
        now: Instant,
    ) -> SessionModel {
        if extra[1] != 0x02 || self.adapter == Some(address) || (self.buds.len() > 0
            && self.buds.last().0 == address) {
            self
        } else {
            let longer = self.buds.push((address, now));
            SessionModel {
                buds: if longer.len() > 2 {
                    longer.remove(0)
                } else {
                    longer
                },
                ..self
            }
        }
    }

    /// A battery packet. The variant that produced the first one is kept for
    /// good, and the packet ends this link's settings dump.
    #[verifier::opaque]
    pub open spec fn battery_heard(self, entries: Vec<codec::BatteryEntry>, t: Moment) -> SessionModel {
        let m = SessionModel {
            locked: if self.locked is None {
                Some(self.active)
            } else {
                self.locked
            },
            battery_seen: true,
            ..self
        }.publish(Update::Battery(entries));
        if m.readback_at is Some {
            m.readback_finished(t)
        } else {
            m
        }
    }

    /// An ownership report. The opening dump reports ownership as state; only
    /// a report on an established link is a handoff. The local card follows
    /// the AirPods' own word on who has them.
    #[verifier::opaque]
    pub open spec fn ownership_heard(self, owns: bool, t: Moment) -> SessionModel {
        let m = self.handoff_event(
            handoff::Event::OwnsConnection {
                owns,
                opening: !self.open || self.readback_at is Some,
            },
            t,
        );
        if !m.handoff.enabled {
            m
        } else if owns {
            m.routed(RouteMode::Own)
        } else {
            m.routed(RouteMode::Yielded)
        }
    }

    /// What one decoded packet does.
    pub open spec fn understood(
        self,
        packet: Packet,
        rejoin: Option<rejoin::Pending>,
        t: Moment,
    ) -> SessionModel {
        match packet {
            Packet::HandshakeAck => self,
            Packet::FeaturesAck => self,
            Packet::Battery(entries) => self.battery_heard(entries, t),
            Packet::EarDetection { primary, secondary } => self.rejoin_seen(rejoin, t).publish(
                Update::Ear { primary, secondary },
            ).emit(EffectModel::ResolveEar),
            Packet::Control(ControlState::NoiseControl(mode)) => self.publish(
                Update::NoiseControl(mode),
            ),
            Packet::Control(ControlState::ConversationalAwareness(on)) => self.publish(
                Update::ConversationalAwareness(on),
            ),
            Packet::Control(ControlState::AdaptiveLevel(level)) => self.publish(
                Update::AdaptiveLevel(level),
            ),
            Packet::Control(ControlState::Setting(setting)) => self.publish(
                Update::Setting(setting),
            ),
            Packet::Control(ControlState::OwnsConnection(owns)) => self.ownership_heard(owns, t),
            Packet::Control(ControlState::Other { .. }) => self,
            Packet::Metadata(md) => self.publish(Update::Metadata(md)),
            Packet::ConversationalAwarenessLevel(_) => self,
            Packet::AddressReport { address, extra } => self.address_noted(address, extra, t.now),
            Packet::AudioSource { address, state } => self.handoff_event(
                handoff::Event::AudioSource { address, state },
                t,
            ),
            Packet::ConnectedDevices { devices, .. } => {
                let m = self.rejoin_seen(rejoin, t);
                m.after_handoff(
                    handoff::on_devices(m.handoff, addresses_of(devices@), t.now),
                    t,
                )
            },
            Packet::SmartRouting { sender, body } => self.rejoin_seen(rejoin, t).handoff_event(
                handoff::Event::SmartRouting {
                    sender,
                    requests_yield: occurs_in(body@, encode_utf8(OWNERSHIP_TO_FALSE@)),
                },
                t,
            ),
            Packet::Unknown { .. } => self,
        }
    }

    /// What one datagram does: the accessory was heard, whatever it said.
    pub open spec fn heard(
        self,
        packet: Result<Packet, DecodeError>,
        rejoin: Option<rejoin::Pending>,
        t: Moment,
    ) -> SessionModel {
        let m = SessionModel { last_packet: Some(t.now), probe_at: None, ..self };
        match packet {
            Ok(p) => m.understood(p, rejoin, t),
            Err(_) => m,
        }
    }

    /// A playback reading goes to ear detection first, then to the handoff.
    #[verifier::opaque]
    pub open spec fn playback_heard(self, reading: PlaybackReading, t: Moment) -> SessionModel {
        SessionModel { last_playback: Some(reading), ..self }.ear_event(
            ear_media::Event::Playback { playing: reading.playing, player: reading.player },
            t,
        ).handoff_event(
            handoff::Event::Playback {
                playing: reading.playing,
                app: reading.app,
                player: reading.player,
            },
            t,
        )
    }
}

impl Supervisor {
    /// Whether the watcher selected another identity.
    pub fn identity_changes(&self, adapter: Address, address: Address, pinned: bool) -> (r: bool)
        ensures
            r == self.model().identity_changes(adapter, address, pinned),
    {
        self.adapter != Some(adapter) || self.device != Some(address) || self.pinned != pinned
    }

    fn disown(&mut self, pinned: bool, rejoin: Option<rejoin::Pending>, t: &Moment)
        requires
            old(self).model().valid(),
        ensures
            final(self).model() == old(self).model().disowned(pinned, rejoin, *t),
            final(self).model().valid(),
    {
        proof {
            reveal(SessionModel::disowned);
        }
        self.generation = bump(self.generation);
        self.acl = false;
        self.pinned = pinned;
        self.dial_at = None;
        self.dial_kind = None;
        self.drop_socket(t);
        self.publish(Update::AclConnected(false));
        self.rejoin_seen(rejoin, t);
    }

    fn connect_observed(&mut self, t: &Moment)
        requires
            t.now + SETTLE <= u128::MAX,
        ensures
            final(self).model() == old(self).model().connected(*t),
            final(self).model().auto == old(self).model().auto,
    {
        proof {
            reveal(SessionModel::connected);
        }
        if !self.acl {
            self.acl = true;
            self.dial_attempt = 0;
            self.generation = bump(self.generation);
            self.suppressed = false;
            self.buds = Vec::new();
            self.emit(Effect::LinkSessionStarted);
            self.dial_kind = Some(DialKind::Automatic);
            self.dial_at = Some(t.now + SETTLE);
        }
    }

    fn lose_link(&mut self, rejoin: Option<rejoin::Pending>, t: &Moment)
        requires
            old(self).model().valid(),
        ensures
            final(self).model() == old(self).model().lost(rejoin, *t),
            final(self).model().valid(),
    {
        proof {
            reveal(SessionModel::disconnected);
            reveal(SessionModel::lost);
        }
        self.rejoin_seen(rejoin, t);
        self.autoconnect_event(
            autoconnect::Event::LocalDisconnected { reason: Reason::Unknown },
            t,
        );
        self.handoff_event(handoff::Event::AudioLinkChanged, t);
        let changed = self.acl || self.adapter.is_some();
        self.acl = false;
        self.dial_at = None;
        self.dial_kind = None;
        if changed {
            self.generation = bump(self.generation);
        }
        self.drop_socket(t);
        self.publish(Update::AclConnected(false));
    }

    fn identify(&mut self, adapter: Address, address: Address)
        ensures
            final(self).model() == old(self).model().identified(adapter, address),
            final(self).model().auto == old(self).model().auto,
    {
        proof {
            reveal(SessionModel::identified);
        }
        self.adapter = Some(adapter);
        self.device = Some(address);
        self.handoff.set_local(adapter);
    }

    fn name_host(&mut self, apple_host_id: Option<bool>)
        ensures
            final(self).model() == (SessionModel {
                handoff: HandoffModel { apple_host_id, ..old(self).model().handoff },
                ..old(self).model()
            }).emit(EffectModel::PublishHandoff),
            final(self).model().auto == old(self).model().auto,
    {
        self.handoff.set_apple_host_id(apple_host_id);
        self.emit(Effect::PublishHandoff);
    }

    fn drop_link(&mut self, reason: Reason, rejoin: Option<rejoin::Pending>, t: &Moment)
        requires
            old(self).model().valid(),
        ensures
            final(self).model() == old(self).model().dropped(reason, rejoin, *t),
            final(self).model().valid(),
    {
        proof {
            reveal(SessionModel::dropped);
        }
        self.cancel_route();
        self.autoconnect_event(autoconnect::Event::LocalDisconnected { reason }, t);
        self.rejoin_seen(rejoin, t);
    }

    fn find_link(&mut self, rejoin: Option<rejoin::Pending>, t: &Moment)
        requires
            old(self).model().valid(),
            t.now + SETTLE <= u128::MAX,
        ensures
            final(self).model() == old(self).model().found(rejoin, *t),
            final(self).model().valid(),
    {
        proof {
            reveal(SessionModel::found);
        }
        self.rejoin_seen(rejoin, t);
        self.autoconnect_event(autoconnect::Event::LocalConnected, t);
        self.handoff_event(handoff::Event::AudioLinkChanged, t);
        self.publish(Update::AclConnected(true));
        self.connect_observed(t);
    }

    /// Fold in one link event. `rejoin` is what the rejoin machine has pending
    /// once it has seen the event too.
    pub fn on_link(&mut self, event: LinkEvent, rejoin: Option<rejoin::Pending>, t: &Moment)
        requires
            old(self).model().valid(),
            t.now + SETTLE <= u128::MAX,
        ensures
            final(self).model() == old(self).model().on_link(event, rejoin, *t),
            final(self).model().valid(),
    {
        match event {
            LinkEvent::Identity { adapter, address, name, model_id, pinned } => {
                if self.identity_changes(adapter, address, pinned) {
                    self.disown(pinned, rejoin, t);
                }
                self.identify(adapter, address);
                self.publish(Update::Identity { address, name, model_id });
            },
            LinkEvent::AdapterAppleId(apple) => {
                self.name_host(apple);
            },
            LinkEvent::AudioTransport => {
                self.handoff_event(handoff::Event::AudioLinkChanged, t);
            },
            LinkEvent::A2dpTransport { active, transports: _ } => {
                self.handoff_event(handoff::Event::A2dpTransport { active }, t);
            },
            LinkEvent::HandsFreeTransport { transports: _ } => {},
            LinkEvent::Disconnected { reason, message: _, facts: _ } => {
                self.drop_link(Reason::from_bluez(reason.as_str()), rejoin, t);
            },
            LinkEvent::Connected(true) => {
                self.find_link(rejoin, t);
            },
            LinkEvent::WatchEnded => {},
            LinkEvent::Connected(false) => {
                self.lose_link(rejoin, t);
            },
            LinkEvent::AdapterGone => {
                self.lose_link(rejoin, t);
            },
        }
    }

    pub(super) fn finish_readback(&mut self, t: &Moment)
        ensures
            final(self).model() == old(self).model().readback_finished(*t),
            final(self).model().auto == old(self).model().auto,
    {
        proof {
            reveal(SessionModel::readback_finished);
        }
        self.readback_at = None;
        self.verify_budget = None;
        self.publish(Update::VerifyCompleted);
        self.handoff_event(handoff::Event::OpeningSettled, t);
    }

    fn note_address_report(&mut self, address: Address, extra: [u8; 2], now: Instant)
        ensures
            final(self).model() == old(self).model().address_noted(address, extra, now),
            final(self).model().auto == old(self).model().auto,
    {
        proof {
            reveal(SessionModel::address_noted);
        }
        if extra[1] != 0x02 || self.adapter == Some(address) {
            return ;
        }
        let known: usize = self.buds.len();
        if known > 0 && self.buds[known - 1].0 == address {
            return ;
        }
        self.buds.push((address, now));
        if self.buds.len() > 2 {
            self.buds.remove(0);
        }
    }

    fn hear_battery(&mut self, entries: Vec<codec::BatteryEntry>, t: &Moment)
        ensures
            final(self).model() == old(self).model().battery_heard(entries, *t),
            final(self).model().auto == old(self).model().auto,
    {
        proof {
            reveal(SessionModel::battery_heard);
        }
        if self.locked.is_none() {
            self.locked = Some(self.active);
        }
        self.battery_seen = true;
        self.publish(Update::Battery(entries));
        if self.readback_at.is_some() {
            self.finish_readback(t);
        }
    }

    fn hear_ownership(&mut self, owns: bool, t: &Moment)
        ensures
            final(self).model() == old(self).model().ownership_heard(owns, *t),
            final(self).model().auto == old(self).model().auto,
    {
        proof {
            reveal(SessionModel::ownership_heard);
        }
        let opening = !self.open || self.readback_at.is_some();
        self.handoff_event(handoff::Event::OwnsConnection { owns, opening }, t);
        if self.handoff.is_enabled() {
            if owns {
                self.set_route(RouteMode::Own);
            } else {
                self.set_route(RouteMode::Yielded);
            }
        }
    }

    fn hear_devices(&mut self, devices: Vec<ConnectedDevice>, t: &Moment)
        ensures
            final(self).model() == old(self).model().after_handoff(
                handoff::on_devices(old(self).model().handoff, addresses_of(devices@), t.now),
                *t,
            ),
            final(self).model().auto == old(self).model().auto,
    {
        let mut addresses: Vec<Address> = Vec::new();
        let mut i: usize = 0;
        while i < devices.len()
            invariant
                i <= devices@.len(),
                addresses@ == addresses_of(devices@).take(i as int),
            decreases devices@.len() - i,
        {
            proof {
                assert(addresses_of(devices@).take(i + 1) =~= addresses_of(devices@).take(
                    i as int,
                ).push(devices@[i as int].address));
            }
            addresses.push(devices[i].address);
            i += 1;
        }
        proof {
            assert(addresses_of(devices@).take(i as int) =~= addresses_of(devices@));
            handoff::devices_step(self.model().handoff, addresses, t.now);
            reveal(SessionModel::handoff_event);
        }
        self.handoff_event(handoff::Event::ConnectedDevices(addresses), t);
    }

    fn understand(&mut self, packet: Packet, rejoin: Option<rejoin::Pending>, t: &Moment)
        requires
            old(self).model().valid(),
        ensures
            final(self).model() == old(self).model().understood(packet, rejoin, *t),
            final(self).model().valid(),
    {
        match packet {
            Packet::HandshakeAck => {},
            Packet::FeaturesAck => {},
            Packet::Battery(entries) => {
                self.hear_battery(entries, t);
            },
            Packet::EarDetection { primary, secondary } => {
                self.rejoin_seen(rejoin, t);
                self.publish(Update::Ear { primary, secondary });
                self.emit(Effect::ResolveEar);
            },
            Packet::Control(ControlState::NoiseControl(mode)) => {
                self.publish(Update::NoiseControl(mode));
            },
            Packet::Control(ControlState::ConversationalAwareness(on)) => {
                self.publish(Update::ConversationalAwareness(on));
            },
            Packet::Control(ControlState::AdaptiveLevel(level)) => {
                self.publish(Update::AdaptiveLevel(level));
            },
            Packet::Control(ControlState::Setting(setting)) => {
                self.publish(Update::Setting(setting));
            },
            Packet::Control(ControlState::OwnsConnection(owns)) => {
                self.hear_ownership(owns, t);
            },
            Packet::Control(ControlState::Other { id: _, value: _ }) => {},
            Packet::Metadata(md) => {
                self.publish(Update::Metadata(md));
            },
            Packet::ConversationalAwarenessLevel(_) => {},
            Packet::AddressReport { address, extra } => {
                self.note_address_report(address, extra, t.now);
            },
            Packet::AudioSource { address, state } => {
                self.handoff_event(handoff::Event::AudioSource { address, state }, t);
            },
            Packet::ConnectedDevices { header: _, devices } => {
                self.rejoin_seen(rejoin, t);
                self.hear_devices(devices, t);
            },
            Packet::SmartRouting { sender, body } => {
                let requests_yield = codec::smart_routing_requests_yield(body.as_slice());
                self.rejoin_seen(rejoin, t);
                self.handoff_event(handoff::Event::SmartRouting { sender, requests_yield }, t);
            },
            Packet::Unknown { opcode: _, payload: _ } => {},
        }
    }

    /// Fold in one datagram from the accessory. `rejoin` is what the rejoin
    /// machine has pending once it has seen the packet's evidence too.
    pub fn on_packet(&mut self, bytes: &[u8], rejoin: Option<rejoin::Pending>, t: &Moment)
        requires
            old(self).model().valid(),
        ensures
            exists|packet: Result<Packet, DecodeError>|
                codec::decode_view(packet) == codec::packet_of(bytes@) && final(self).model()
                    == #[trigger] old(self).model().heard(packet, rejoin, *t),
            final(self).model().valid(),
    {
        let packet = codec::decode(bytes);
        self.on_decoded(packet, rejoin, t);
    }

    /// Fold in one datagram that was already decoded.
    pub fn on_decoded(
        &mut self,
        packet: Result<Packet, DecodeError>,
        rejoin: Option<rejoin::Pending>,
        t: &Moment,
    )
        requires
            old(self).model().valid(),
        ensures
            final(self).model() == old(self).model().heard(packet, rejoin, *t),
            final(self).model().valid(),
    {
        self.last_packet = Some(t.now);
        self.probe_at = None;
        if let Ok(p) = packet {
            self.understand(p, rejoin, t);
        }
    }

    /// Hand over the in-ear state once the primary and secondary buds of a
    /// report have been resolved into left and right.
    pub fn on_ear(&mut self, ear: Ear, t: &Moment)
        requires
            old(self).model().valid(),
        ensures
            final(self).model() == old(self).model().ear_event(ear_media::Event::Ear(ear), *t),
            final(self).model().valid(),
    {
        self.ear_event(ear_media::Event::Ear(ear), t);
    }

    /// Fold in one local playback reading.
    pub fn on_playback(&mut self, reading: PlaybackReading, t: &Moment)
        requires
            old(self).model().valid(),
        ensures
            final(self).model() == old(self).model().playback_heard(reading, *t),
            final(self).model().valid(),
    {
        proof {
            reveal(SessionModel::playback_heard);
        }
        self.last_playback = Some(reading.clone());
        self.ear_event(
            ear_media::Event::Playback { playing: reading.playing, player: reading.player.clone() },
            t,
        );
        self.handoff_event(
            handoff::Event::Playback {
                playing: reading.playing,
                app: reading.app,
                player: reading.player,
            },
            t,
        );
    }

    /// Fold in one qualifying proximity advert.
    pub fn on_sighting(&mut self, rssi: Option<i16>, t: &Moment)
        requires
            old(self).model().valid(),
            old(self).model().ready(t.now),
        ensures
            final(self).model() == old(self).model().auto_event(
                autoconnect::Event::Seen { rssi },
                *t,
            ),
            final(self).model().valid(),
    {
        self.autoconnect_event(autoconnect::Event::Seen { rssi }, t);
    }

    /// Fold in the end of one `Device1.Connect` that auto-connect asked for.
    pub fn on_page_finished(&mut self, seq: u64, outcome: Outcome, t: &Moment)
        requires
            old(self).model().valid(),
            old(self).model().ready(t.now),
        ensures
            final(self).model() == old(self).model().auto_event(
                autoconnect::Event::ConnectFinished { seq, outcome },
                *t,
            ),
            final(self).model().valid(),
    {
        self.autoconnect_event(autoconnect::Event::ConnectFinished { seq, outcome }, t);
    }
}

/// What a packet tells the rejoin machine.
#[derive(Debug, Clone, PartialEq, Eq)]
pub enum Evidence {
    /// Where the buds are.
    Ear {
        /// Both are in the case.
        both_in_case: bool,
    },
    /// The hosts the AirPods list, in order.
    ConnectedDevices(Vec<ListedHost>),
    /// Another host spoke through the AirPods.
    Relay {
        /// That host.
        sender: Address,
    },
}

/// A listed host, and whether its link is up.
pub open spec fn listed(device: ConnectedDevice) -> ListedHost {
    ListedHost { address: device.address, link_up: device.info[0] == codec::LINK_UP }
}

/// What a packet tells the rejoin machine, if anything.
pub fn evidence_of(packet: &Packet) -> (r: Option<Evidence>)
    ensures
        match *packet {
            Packet::EarDetection { primary, secondary } => r == Some(
                Evidence::Ear {
                    both_in_case: primary == EarState::Case && secondary == EarState::Case,
                },
            ),
            Packet::ConnectedDevices { devices, .. } => r matches Some(
                Evidence::ConnectedDevices(hosts),
            ) && hosts@ == devices@.map_values(|d: ConnectedDevice| listed(d)),
            Packet::SmartRouting { sender, .. } => r == Some(Evidence::Relay { sender }),
            _ => r is None,
        },
{
    match packet {
        Packet::EarDetection { primary, secondary } => Some(
            Evidence::Ear { both_in_case: super::both_buds_in_case(*primary, *secondary) },
        ),
        Packet::ConnectedDevices { header: _, devices } => {
            let mut hosts: Vec<ListedHost> = Vec::new();
            let mut i: usize = 0;
            while i < devices.len()
                invariant
                    i <= devices@.len(),
                    hosts@ == devices@.map_values(|d: ConnectedDevice| listed(d)).take(i as int),
                decreases devices@.len() - i,
            {
                let device = devices[i];
                proof {
                    let all = devices@.map_values(|d: ConnectedDevice| listed(d));
                    assert(all.take(i + 1) =~= all.take(i as int).push(listed(device)));
                }
                hosts.push(ListedHost { address: device.address, link_up: device.is_link_up() });
                i += 1;
            }
            proof {
                let all = devices@.map_values(|d: ConnectedDevice| listed(d));
                assert(all.take(i as int) =~= all);
            }
            Some(Evidence::ConnectedDevices(hosts))
        },
        Packet::SmartRouting { sender, body: _ } => Some(Evidence::Relay { sender: *sender }),
        _ => None,
    }
}

} // verus!
