//! What the supervisor does about commands, and how it carries out what the
//! handoff machine decided.
use super::{
    bump, bumped, model_refusal, settings_model_error, Effect, EffectModel, Moment, SessionModel,
    Supervisor, NO_LINK, VERIFY_BUDGET, VERIFY_DEBOUNCE,
};
use crate::aap::codec;
use crate::aap::opcode;
use crate::address::Address;
use crate::audio_route::RouteMode;
use crate::autoconnect;
use crate::bluez::ClaimEnd;
use crate::clock::{Duration, MILLISECOND, SECOND};
use crate::ctl_proto::Request;
use crate::handoff::{self, HandoffModel};
use crate::mpris::{MprisCommand, MprisModel};
use crate::rejoin;
use crate::settings::{name_refusal, valid_name, SettingCommand};
use crate::state::Snapshot;
use crate::store::Update;
use vstd::prelude::*;
use vstd::string::*;

verus! {

/// What follows a packet that a command sent.
#[derive(Debug, Clone, PartialEq, Eq)]
pub enum AfterSend {
    /// Show the new value straight away. The accessory echoes it, but a
    /// widget must not lag behind the click.
    Publish(Update),
    /// A setting was written silently: read it back.
    ReadBackSetting(SettingCommand),
    /// A name was written silently: read it back.
    ReadBackName(String),
}

/// What carrying out a command takes.
#[derive(Debug, Clone, PartialEq, Eq)]
pub enum CommandPlan {
    /// Answer with the published state.
    Status,
    /// Answer with this error.
    Refuse(String),
    /// Send the packet, then report to [`Supervisor::command_sent`] or
    /// [`Supervisor::command_send_failed`].
    Send {
        /// The packet.
        packet: Vec<u8>,
        /// What follows.
        after: AfterSend,
    },
    /// Check the local link, then go on with [`Supervisor::reconnect_checked`].
    Reconnect,
    /// Look the pinned device up and ask BlueZ once to connect it.
    ConnectOnce {
        /// Local adapter.
        adapter: Address,
        /// The AirPods.
        device: Address,
    },
    /// Perform what the handoff machine queued, and answer with the first
    /// failure.
    Perform,
    /// Save the handoff switch, then go on with [`Supervisor::handoff_saved`].
    SaveHandoff(bool),
}

/// A plan with its texts and bytes read as sequences.
#[verifier::ext_equal]
pub enum PlanModel {
    /// See [`CommandPlan::Status`].
    Status,
    /// See [`CommandPlan::Refuse`].
    Refuse(Seq<char>),
    /// See [`CommandPlan::Send`].
    Send {
        /// The packet.
        packet: Seq<u8>,
        /// What follows.
        after: AfterSend,
    },
    /// See [`CommandPlan::Reconnect`].
    Reconnect,
    /// See [`CommandPlan::ConnectOnce`].
    ConnectOnce {
        /// Local adapter.
        adapter: Address,
        /// The AirPods.
        device: Address,
    },
    /// See [`CommandPlan::Perform`].
    Perform,
    /// See [`CommandPlan::SaveHandoff`].
    SaveHandoff(bool),
}

impl View for CommandPlan {
    type V = PlanModel;

    open spec fn view(&self) -> PlanModel {
        match *self {
            CommandPlan::Status => PlanModel::Status,
            CommandPlan::Refuse(why) => PlanModel::Refuse(why@),
            CommandPlan::Send { packet, after } => PlanModel::Send { packet: packet@, after },
            CommandPlan::Reconnect => PlanModel::Reconnect,
            CommandPlan::ConnectOnce { adapter, device } => PlanModel::ConnectOnce {
                adapter,
                device,
            },
            CommandPlan::Perform => PlanModel::Perform,
            CommandPlan::SaveHandoff(enabled) => PlanModel::SaveHandoff(enabled),
        }
    }
}

/// The failure that is answered: the first one.
pub fn first_failure(kept: Option<String>, next: Option<String>) -> (r: Option<String>)
    ensures
        r == (if kept is Some {
            kept
        } else {
            next
        }),
{
    match kept {
        Some(why) => Some(why),
        None => next,
    }
}

/// What one queued handoff action takes.
#[derive(Debug, Clone, PartialEq, Eq)]
pub enum HandoffStep {
    /// Nothing is left to do.
    Nothing,
    /// Send the packet; a failure ends the link.
    Send(Vec<u8>),
    /// There is no link to send on.
    NoLink,
    /// A request to the media players.
    Mpris(MprisCommand),
    /// Connect the A2DP profile; see [`Supervisor::claim_audio`].
    Claim,
    /// Let local playback stop, then point the card away with
    /// [`Supervisor::yield_route`].
    YieldRoute,
}

/// A step with its texts and bytes read as sequences.
#[verifier::ext_equal]
pub enum HandoffStepModel {
    /// See [`HandoffStep::Nothing`].
    Nothing,
    /// See [`HandoffStep::Send`].
    Send(Seq<u8>),
    /// See [`HandoffStep::NoLink`].
    NoLink,
    /// See [`HandoffStep::Mpris`].
    Mpris(MprisModel),
    /// See [`HandoffStep::Claim`].
    Claim,
    /// See [`HandoffStep::YieldRoute`].
    YieldRoute,
}

impl View for HandoffStep {
    type V = HandoffStepModel;

    open spec fn view(&self) -> HandoffStepModel {
        match *self {
            HandoffStep::Nothing => HandoffStepModel::Nothing,
            HandoffStep::Send(packet) => HandoffStepModel::Send(packet@),
            HandoffStep::NoLink => HandoffStepModel::NoLink,
            HandoffStep::Mpris(command) => HandoffStepModel::Mpris(command@),
            HandoffStep::Claim => HandoffStepModel::Claim,
            HandoffStep::YieldRoute => HandoffStepModel::YieldRoute,
        }
    }
}

/// Wait before trying a busy audio profile again for the `tries`-th time, or
/// `None` once it is given up.
pub open spec fn claim_backoff(tries: int) -> Option<Duration> {
    if tries == 0 {
        Some((700 * MILLISECOND) as u128)
    } else if tries == 1 {
        Some((1500 * MILLISECOND) as u128)
    } else if tries == 2 {
        Some((3 * SECOND) as u128)
    } else {
        None
    }
}

/// Wait before retrying a take-over profile connect that BlueZ refused as
/// busy; `None` gives up.
pub fn claim_retry(tries: u8) -> (r: Option<Duration>)
    ensures
        r == claim_backoff(tries as int),
{
    match tries {
        0 => Some(700 * MILLISECOND),
        1 => Some(1500 * MILLISECOND),
        2 => Some(3 * SECOND),
        _ => None,
    }
}

/// One claim of the audio profile, which may take several tries.
#[derive(Debug, Clone, Copy, PartialEq, Eq, Structural)]
pub struct Claim {
    /// The number the claim was made under.
    pub epoch: u64,
    /// Tries that BlueZ refused as busy.
    pub tries: u8,
}

impl Claim {
    /// No more tries than there are waits for.
    pub open spec fn wf(self) -> bool {
        self.tries <= 3
    }

    /// The claim after a try, and the wait before the next one, if there is to
    /// be one: only a busy link is tried again.
    pub open spec fn after(self, end: ClaimEnd) -> (Claim, Option<Duration>) {
        if end == ClaimEnd::Busy && claim_backoff(self.tries as int) is Some {
            (
                Claim { tries: (self.tries + 1) as u8, ..self },
                claim_backoff(self.tries as int),
            )
        } else {
            (self, None)
        }
    }

    /// A claim that was not tried yet.
    pub fn new(epoch: u64) -> (r: Self)
        ensures
            r.wf(),
            r.epoch == epoch,
            r.tries == 0,
    {
        Claim { epoch, tries: 0 }
    }

    /// Whether the claim may still be tried: ownership was not lost, and no
    /// newer claim was made, as long as the number is the same.
    pub fn is_current(&self, epoch: u64) -> (r: bool)
        ensures
            r == (epoch == self.epoch),
    {
        epoch == self.epoch
    }

    /// The wait before the next try, or `None` when this was the last one.
    pub fn ended(&mut self, end: ClaimEnd) -> (r: Option<Duration>)
        requires
            old(self).wf(),
        ensures
            (*final(self), r) == old(self).after(end),
            final(self).wf(),
    {
        if end != ClaimEnd::Busy {
            return None;
        }
        let wait = claim_retry(self.tries);
        if wait.is_some() {
            self.tries = self.tries + 1;
        }
        wait
    }
}

/// A claim is tried at most four times, and again only after BlueZ was busy.
pub proof fn a_claim_is_bounded(c: Claim, end: ClaimEnd)
    requires
        c.wf(),
    ensures
        c.after(end).1 is Some ==> end == ClaimEnd::Busy && c.tries < 3 && c.after(end).0.tries
            == c.tries + 1,
        c.after(end).0.epoch == c.epoch,
{
}

impl SessionModel {
    /// A packet that needs only the link.
    pub open spec fn planned_send(self, packet: Seq<u8>, after: AfterSend) -> PlanModel {
        if self.open {
            PlanModel::Send { packet, after }
        } else {
            PlanModel::Refuse(NO_LINK@)
        }
    }

    /// A packet that also needs a model known to take it.
    pub open spec fn planned_write(
        self,
        model: Seq<char>,
        packet: Seq<u8>,
        after: AfterSend,
    ) -> PlanModel {
        if !self.open {
            PlanModel::Refuse(NO_LINK@)
        } else {
            match model_refusal(model) {
                Some(why) => PlanModel::Refuse(why),
                None => PlanModel::Send { packet, after },
            }
        }
    }

    /// A manual take-over or yield.
    pub open spec fn planned_switch(self, event: handoff::Event, t: Moment) -> (
        SessionModel,
        PlanModel,
    ) {
        if !self.open {
            (self, PlanModel::Refuse(NO_LINK@))
        } else if self.adapter is None {
            (self, PlanModel::Refuse("local Bluetooth adapter is not known yet"@))
        } else {
            (self.handoff_event(event, t), PlanModel::Perform)
        }
    }

    /// The user took the connection in hand: the reconnect machines stand
    /// back.
    pub open spec fn manual(self, rejoin: Option<rejoin::Pending>, t: Moment) -> SessionModel {
        self.rejoin_seen(rejoin, t).auto_event(autoconnect::Event::ManualCommand, t)
    }

    /// `connect-once` needs an identity that was selected from an explicit
    /// pin.
    pub open spec fn planned_connect_once(self) -> PlanModel {
        if !self.pinned {
            PlanModel::Refuse(
                "connect-once requires aurisd to be started with a pinned device address"@,
            )
        } else {
            match (self.adapter, self.device) {
                (Some(adapter), Some(device)) => PlanModel::ConnectOnce { adapter, device },
                _ => PlanModel::Refuse("selected Bluetooth device is not known yet"@),
            }
        }
    }

    /// What a request asks for. `model` is the accessory's product id,
    /// `can_save` says that there is a configuration file, and `rejoin` is
    /// what the rejoin machine has pending once it has seen a manual command.
    pub open spec fn planned(
        self,
        request: Request,
        model: Seq<char>,
        can_save: bool,
        rejoin: Option<rejoin::Pending>,
        t: Moment,
    ) -> (SessionModel, PlanModel) {
        match request {
            Request::Status => (self, PlanModel::Status),
            Request::Subscribe => (
                self,
                PlanModel::Refuse("subscribe is served by the control server"@),
            ),
            Request::Reconnect => (self.manual(rejoin, t), PlanModel::Reconnect),
            Request::ConnectOnce => (
                self.manual(rejoin, t),
                self.manual(rejoin, t).planned_connect_once(),
            ),
            Request::TakeOver => self.planned_switch(handoff::Event::TakeOver, t),
            Request::Yield => self.planned_switch(handoff::Event::Yield, t),
            Request::SetHandoff { enabled } => (
                self,
                if can_save {
                    PlanModel::SaveHandoff(enabled)
                } else {
                    PlanModel::Refuse(
                        "no configuration file path; handoff setting was not changed"@,
                    )
                },
            ),
            Request::SetNoiseControl { value } => (
                self,
                self.planned_send(
                    codec::control_bytes(opcode::CTL_NOISE_CONTROL, seq![value.wire()]),
                    AfterSend::Publish(Update::NoiseControl(value)),
                ),
            ),
            Request::SetConversationalAwareness { value } => (
                self,
                self.planned_send(
                    codec::control_bytes(
                        opcode::CTL_CONV_AWARENESS,
                        seq![if value { 1u8 } else { 2u8 }],
                    ),
                    AfterSend::Publish(Update::ConversationalAwareness(value)),
                ),
            ),
            Request::SetAdaptiveLevel { value } => (
                self,
                self.planned_send(
                    codec::control_bytes(
                        opcode::CTL_ADAPTIVE_LEVEL,
                        seq![codec::clamped_level(value)],
                    ),
                    AfterSend::Publish(Update::AdaptiveLevel(codec::clamped_level(value))),
                ),
            ),
            Request::SetSetting { setting } => (
                self,
                if setting@.writable() {
                    self.planned_write(
                        model,
                        codec::control_bytes(
                            codec::setting_wire(setting@).0,
                            codec::setting_wire(setting@).1,
                        ),
                        AfterSend::ReadBackSetting(setting),
                    )
                } else {
                    PlanModel::Refuse(setting@.refusal())
                },
            ),
            Request::Rename { name } => (
                self,
                if valid_name(name@) {
                    self.planned_write(
                        model,
                        codec::rename_bytes(name@),
                        AfterSend::ReadBackName(name),
                    )
                } else {
                    PlanModel::Refuse(name_refusal(name@))
                },
            ),
        }
    }

    /// A write went out: its readback is armed. The debounce lets a burst of
    /// writes share one reopen.
    pub open spec fn readback_armed(self, t: Moment) -> SessionModel {
        SessionModel {
            verify_at: Some((t.now + VERIFY_DEBOUNCE) as u128),
            verify_budget: Some((t.now + VERIFY_BUDGET) as u128),
            ..self
        }
    }

    /// A command's packet was sent in full.
    pub open spec fn sent(self, after: AfterSend, t: Moment) -> SessionModel {
        match after {
            AfterSend::Publish(update) => self.publish(update),
            AfterSend::ReadBackSetting(setting) => self.publish(
                Update::SettingRequested(setting),
            ).readback_armed(t),
            AfterSend::ReadBackName(name) => self.publish(
                Update::RenameRequested(name),
            ).readback_armed(t),
        }
    }

    /// Automatic switching is on or off.
    #[verifier::opaque]
    pub open spec fn enabled_as(self, enabled: bool) -> SessionModel {
        SessionModel { handoff: HandoffModel { enabled, ..self.handoff }, ..self }
    }

    /// The handoff switch was saved. A card left pointed away is pointed back
    /// when switching goes off.
    pub open spec fn switched(
        self,
        enabled: bool,
        rejoin: Option<rejoin::Pending>,
        t: Moment,
    ) -> SessionModel {
        let m = self.enabled_as(enabled);
        let m1 = if !enabled && m.route == Some(RouteMode::Yielded) {
            m.routed(RouteMode::Own)
        } else {
            m
        };
        m1.rejoin_seen(rejoin, t).emit(EffectModel::PublishHandoff)
    }

    /// The packet of a handoff action, if it has one. What introduces this
    /// host needs its address.
    pub open spec fn handoff_packet(self, action: handoff::ActionModel) -> Option<Seq<u8>> {
        match action {
            handoff::ActionModel::SendOwnership(owns) => Some(
                codec::control_bytes(
                    opcode::CTL_OWNS_CONNECTION,
                    seq![if owns { 1u8 } else { 0u8 }],
                ),
            ),
            handoff::ActionModel::SendMediaInfo { target, streaming, app } => match self.adapter {
                Some(local) => Some(
                    codec::routing_bytes(
                        opcode::OP_SMART_ROUTING,
                        target.0@,
                        codec::media_info_body(local, app, streaming, self.bt_name),
                    ),
                ),
                None => None,
            },
            handoff::ActionModel::SendNewDeviceMediaInfo { target } => match self.adapter {
                Some(local) => Some(
                    codec::routing_bytes(
                        opcode::OP_SMART_ROUTING,
                        target.0@,
                        codec::new_device_body(local, self.bt_name),
                    ),
                ),
                None => None,
            },
            handoff::ActionModel::SendHijack { target } => Some(
                codec::routing_bytes(opcode::OP_SMART_ROUTING, target.0@, codec::hijack_body()),
            ),
            handoff::ActionModel::SendNewTipi { target } => match self.adapter {
                Some(local) => Some(
                    codec::routing_bytes(
                        opcode::OP_SMART_ROUTING,
                        target.0@,
                        codec::new_tipi_body(local, self.bt_name),
                    ),
                ),
                None => None,
            },
            _ => None,
        }
    }

    /// What one queued handoff action takes.
    pub open spec fn performed(self, action: handoff::ActionModel) -> (
        SessionModel,
        HandoffStepModel,
    ) {
        match action {
            handoff::ActionModel::PauseLocalPlayers => (
                self,
                HandoffStepModel::Mpris(MprisModel::PausePlaying),
            ),
            handoff::ActionModel::RepausePlayer { player } => (
                self,
                HandoffStepModel::Mpris(
                    match player {
                        Some(name) => MprisModel::Pause(name),
                        None => MprisModel::PausePlaying,
                    },
                ),
            ),
            handoff::ActionModel::ClaimAudio => (self, HandoffStepModel::Claim),
            handoff::ActionModel::SetAudioRoute(RouteMode::Own) => (
                self.routed(RouteMode::Own),
                HandoffStepModel::Nothing,
            ),
            handoff::ActionModel::SetAudioRoute(RouteMode::Yielded) => (
                self,
                HandoffStepModel::YieldRoute,
            ),
            _ => (
                self,
                match self.handoff_packet(action) {
                    Some(packet) => if self.open {
                        HandoffStepModel::Send(packet)
                    } else {
                        HandoffStepModel::NoLink
                    },
                    None => HandoffStepModel::Nothing,
                },
            ),
        }
    }

    /// The claim of the audio profile that may be made now. A newer claim
    /// supersedes one in flight.
    pub open spec fn claimed(self) -> (SessionModel, Option<(Address, Address, u64)>) {
        match (self.adapter, self.device) {
            (Some(adapter), Some(device)) => if self.control_audio && self.handoff.owns() {
                (
                    SessionModel { claim_epoch: bumped(self.claim_epoch), ..self },
                    Some((adapter, device, bumped(self.claim_epoch))),
                )
            } else {
                (self, None)
            },
            _ => (self, None),
        }
    }
}

impl Supervisor {
    fn plan_send(&self, packet: Vec<u8>, after: AfterSend) -> (r: CommandPlan)
        ensures
            r@ == self.model().planned_send(packet@, after),
    {
        if self.open {
            CommandPlan::Send { packet, after }
        } else {
            CommandPlan::Refuse(NO_LINK.to_owned())
        }
    }

    fn plan_write(&self, snapshot: &Snapshot, packet: Vec<u8>, after: AfterSend) -> (r: CommandPlan)
        ensures
            r@ == self.model().planned_write(snapshot.device.model_id@, packet@, after),
    {
        if !self.open {
            return CommandPlan::Refuse(NO_LINK.to_owned());
        }
        match settings_model_error(snapshot) {
            Some(why) => CommandPlan::Refuse(why),
            None => CommandPlan::Send { packet, after },
        }
    }

    fn plan_switch(&mut self, event: handoff::Event, t: &Moment) -> (r: CommandPlan)
        requires
            t.now + handoff::STREAM_CHECK <= u128::MAX,
        ensures
            (final(self).model(), r@) == old(self).model().planned_switch(event, *t),
            final(self).model().auto == old(self).model().auto,
    {
        if !self.open {
            return CommandPlan::Refuse(NO_LINK.to_owned());
        }
        if self.adapter.is_none() {
            return CommandPlan::Refuse("local Bluetooth adapter is not known yet".to_owned());
        }
        self.handoff_event(event, t);
        CommandPlan::Perform
    }

    fn take_in_hand(&mut self, rejoin: Option<rejoin::Pending>, t: &Moment)
        requires
            old(self).model().valid(),
        ensures
            final(self).model() == old(self).model().manual(rejoin, *t),
            final(self).model().valid(),
    {
        self.rejoin_seen(rejoin, t);
        self.autoconnect_event(autoconnect::Event::ManualCommand, t);
    }

    fn plan_connect_once(&self) -> (r: CommandPlan)
        ensures
            r@ == self.model().planned_connect_once(),
    {
        if !self.pinned {
            return CommandPlan::Refuse(
                "connect-once requires aurisd to be started with a pinned device address".to_owned(),
            );
        }
        match (self.adapter, self.device) {
            (Some(adapter), Some(device)) => CommandPlan::ConnectOnce { adapter, device },
            _ => CommandPlan::Refuse("selected Bluetooth device is not known yet".to_owned()),
        }
    }

    /// Begin one command. `snapshot` is the published state, `can_save` says
    /// that there is a configuration file, and `rejoin` is what the rejoin
    /// machine has pending once it has seen a manual command.
    pub fn on_command(
        &mut self,
        request: Request,
        snapshot: &Snapshot,
        can_save: bool,
        rejoin: Option<rejoin::Pending>,
        t: &Moment,
    ) -> (r: CommandPlan)
        requires
            old(self).model().valid(),
            t.now + handoff::STREAM_CHECK <= u128::MAX,
        ensures
            (final(self).model(), r@) == old(self).model().planned(
                request,
                snapshot.device.model_id@,
                can_save,
                rejoin,
                *t,
            ),
            final(self).model().valid(),
    {
        match request {
            Request::Status => CommandPlan::Status,
            Request::Subscribe => CommandPlan::Refuse(
                "subscribe is served by the control server".to_owned(),
            ),
            Request::Reconnect => {
                self.take_in_hand(rejoin, t);
                CommandPlan::Reconnect
            },
            Request::ConnectOnce => {
                self.take_in_hand(rejoin, t);
                self.plan_connect_once()
            },
            Request::TakeOver => self.plan_switch(handoff::Event::TakeOver, t),
            Request::Yield => self.plan_switch(handoff::Event::Yield, t),
            Request::SetHandoff { enabled } => {
                if can_save {
                    CommandPlan::SaveHandoff(enabled)
                } else {
                    CommandPlan::Refuse(
                        "no configuration file path; handoff setting was not changed".to_owned(),
                    )
                }
            },
            Request::SetNoiseControl { value } => self.plan_send(
                codec::encode_set_noise_control(value),
                AfterSend::Publish(Update::NoiseControl(value)),
            ),
            Request::SetConversationalAwareness { value } => self.plan_send(
                codec::encode_set_conversational_awareness(value),
                AfterSend::Publish(Update::ConversationalAwareness(value)),
            ),
            Request::SetAdaptiveLevel { value } => {
                let level: u8 = if value <= 100 {
                    value
                } else {
                    100
                };
                self.plan_send(
                    codec::encode_set_adaptive_level(level),
                    AfterSend::Publish(Update::AdaptiveLevel(level)),
                )
            },
            Request::SetSetting { setting } => match codec::encode_set_setting(&setting) {
                Ok(packet) => self.plan_write(
                    snapshot,
                    packet,
                    AfterSend::ReadBackSetting(setting),
                ),
                Err(e) => CommandPlan::Refuse(e),
            },
            Request::Rename { name } => match codec::encode_rename(name.as_str()) {
                Ok(packet) => self.plan_write(snapshot, packet, AfterSend::ReadBackName(name)),
                Err(e) => CommandPlan::Refuse(e),
            },
        }
    }

    /// A command's packet was sent in full. Success means sent: the accessory
    /// never acknowledges a setting or a name, so those are read back.
    pub fn command_sent(&mut self, after: AfterSend, t: &Moment)
        requires
            old(self).model().valid(),
            t.now + VERIFY_BUDGET <= u128::MAX,
        ensures
            final(self).model() == old(self).model().sent(after, *t),
            final(self).model().valid(),
    {
        match after {
            AfterSend::Publish(update) => {
                self.publish(update);
            },
            AfterSend::ReadBackSetting(setting) => {
                self.publish(Update::SettingRequested(setting));
                self.verify_at = Some(t.now + VERIFY_DEBOUNCE);
                self.verify_budget = Some(t.now + VERIFY_BUDGET);
            },
            AfterSend::ReadBackName(name) => {
                self.publish(Update::RenameRequested(name));
                self.verify_at = Some(t.now + VERIFY_DEBOUNCE);
                self.verify_budget = Some(t.now + VERIFY_BUDGET);
            },
        }
    }

    /// A packet could not be sent: recovery stops, and this is the answer.
    pub fn command_send_failed(&mut self, error: &str, t: &Moment) -> (r: String)
        requires
            old(self).model().valid(),
        ensures
            final(self).model() == old(self).model().suppress(*t),
            r@ == "failed to send command: "@ + error@,
            final(self).model().valid(),
    {
        self.suppress_automatic(t);
        let mut text: String = "failed to send command: ".to_owned();
        text.append(error);
        text
    }

    /// Reopen an already-local link for `reconnect`. `current` says whether
    /// the command is still to be carried out after the check.
    pub fn reconnect_checked(
        &mut self,
        fresh: Result<bool, String>,
        current: Result<(), &'static str>,
        t: &Moment,
    ) -> (r: Result<(), String>)
        requires
            old(self).model().valid(),
        ensures
            final(self).model() == (if fresh == Ok::<bool, String>(true) && current is Ok {
                old(self).model().reopened(*t)
            } else {
                old(self).model()
            }),
            final(self).model().valid(),
            match fresh {
                Ok(true) => match current {
                    Ok(()) => r is Ok,
                    Err(why) => r matches Err(e) && e@ == why@,
                },
                Ok(false) => r matches Err(e) && e@
                    == "device is not connected locally; aurisd will not ask BlueZ to connect it"@,
                Err(why) => r matches Err(e) && e@ == why@,
            },
    {
        match fresh {
            Ok(true) => match current {
                Ok(()) => {
                    self.reopen_local_link(t);
                    Ok(())
                },
                Err(why) => Err(why.to_owned()),
            },
            Ok(false) => Err(
                "device is not connected locally; aurisd will not ask BlueZ to connect it".to_owned(),
            ),
            Err(why) => Err(why),
        }
    }

    fn enable_handoff(&mut self, enabled: bool)
        ensures
            final(self).model() == old(self).model().enabled_as(enabled),
            final(self).model().auto == old(self).model().auto,
    {
        proof {
            reveal(SessionModel::enabled_as);
        }
        self.handoff.set_enabled(enabled);
    }

    /// The handoff switch was saved: apply it. `rejoin` is what the rejoin
    /// machine has pending once it has seen the switch too.
    pub fn handoff_saved(&mut self, enabled: bool, rejoin: Option<rejoin::Pending>, t: &Moment)
        requires
            old(self).model().valid(),
        ensures
            final(self).model() == old(self).model().switched(enabled, rejoin, *t),
            final(self).model().valid(),
    {
        self.enable_handoff(enabled);
        if !enabled && self.route == Some(RouteMode::Yielded) {
            self.set_route(RouteMode::Own);
        }
        self.rejoin_seen(rejoin, t);
        self.emit(Effect::PublishHandoff);
    }

    /// What the handoff machine decided but nobody has performed yet.
    pub fn handoff_actions(&self) -> (r: &Vec<handoff::Action>)
        ensures
            handoff::action_views(r@) == self.model().queued,
    {
        &self.queued
    }

    /// Take what the handoff machine decided, in order. The queue starts anew.
    pub fn take_handoff(&mut self) -> (r: Vec<handoff::Action>)
        ensures
            handoff::action_views(r@) == old(self).model().queued,
            final(self).model() == (SessionModel { queued: Seq::empty(), ..old(self).model() }),
    {
        let mut out: Vec<handoff::Action> = Vec::new();
        std::mem::swap(&mut out, &mut self.queued);
        proof {
            assert(handoff::action_views(self.queued@) =~= Seq::empty());
        }
        out
    }

    fn send_or_not(&self, packet: Vec<u8>) -> (r: HandoffStep)
        ensures
            r@ == (if self.model().open {
                HandoffStepModel::Send(packet@)
            } else {
                HandoffStepModel::NoLink
            }),
    {
        if self.open {
            HandoffStep::Send(packet)
        } else {
            HandoffStep::NoLink
        }
    }

    /// What one handoff action takes.
    pub fn perform(&mut self, action: handoff::Action) -> (r: HandoffStep)
        requires
            old(self).model().valid(),
        ensures
            (final(self).model(), r@) == old(self).model().performed(action@),
            final(self).model().valid(),
    {
        match action {
            handoff::Action::SendOwnership(owns) => self.send_or_not(
                codec::encode_owns_connection(owns),
            ),
            handoff::Action::SendMediaInfo { target, streaming, app } => match self.adapter {
                Some(local) => self.send_or_not(
                    codec::encode_media_info(
                        target,
                        local,
                        app.as_str(),
                        streaming,
                        self.bt_name.as_str(),
                    ),
                ),
                None => HandoffStep::Nothing,
            },
            handoff::Action::SendNewDeviceMediaInfo { target } => match self.adapter {
                Some(local) => self.send_or_not(
                    codec::encode_media_info_new_device(target, local, self.bt_name.as_str()),
                ),
                None => HandoffStep::Nothing,
            },
            handoff::Action::SendHijack { target } => self.send_or_not(
                codec::encode_hijack_v2(target),
            ),
            handoff::Action::SendNewTipi { target } => match self.adapter {
                Some(local) => self.send_or_not(
                    codec::encode_new_tipi(target, local, self.bt_name.as_str()),
                ),
                None => HandoffStep::Nothing,
            },
            handoff::Action::PauseLocalPlayers => HandoffStep::Mpris(MprisCommand::PausePlaying),
            handoff::Action::RepausePlayer { player } => HandoffStep::Mpris(
                match player {
                    Some(name) => MprisCommand::Pause(name),
                    None => MprisCommand::PausePlaying,
                },
            ),
            handoff::Action::ClaimAudio => HandoffStep::Claim,
            handoff::Action::SetAudioRoute(RouteMode::Own) => {
                self.set_route(RouteMode::Own);
                HandoffStep::Nothing
            },
            handoff::Action::SetAudioRoute(RouteMode::Yielded) => HandoffStep::YieldRoute,
            handoff::Action::StreamNotStarted => HandoffStep::Nothing,
            handoff::Action::Record { kind: _, peer: _ } => HandoffStep::Nothing,
        }
    }

    /// Point the local card away from the AirPods, once local playback has
    /// stopped or been waited for.
    pub fn yield_route(&mut self)
        requires
            old(self).model().valid(),
        ensures
            final(self).model() == old(self).model().routed(RouteMode::Yielded),
            final(self).model().valid(),
    {
        self.set_route(RouteMode::Yielded);
    }

    /// The audio profile claim that may be made now: both ends, and the number
    /// that [`Supervisor::claim_epoch`] keeps while it may go on.
    pub fn claim_audio(&mut self) -> (r: Option<(Address, Address, u64)>)
        requires
            old(self).model().valid(),
        ensures
            (final(self).model(), r) == old(self).model().claimed(),
            final(self).model().valid(),
    {
        if !self.control_audio {
            return None;
        }
        match (self.adapter, self.device) {
            (Some(adapter), Some(device)) => {
                if !self.handoff.owns_audio() {
                    return None;
                }
                self.claim_epoch = bump(self.claim_epoch);
                Some((adapter, device, self.claim_epoch))
            },
            _ => None,
        }
    }
}

/// How the look-up of a pinned device ended.
#[derive(Debug, Clone, PartialEq, Eq)]
pub enum PinnedLookup {
    /// It is there and paired.
    Paired,
    /// It is unavailable or not paired.
    Missing,
    /// BlueZ could not say.
    Failed(String),
    /// BlueZ did not answer in time.
    TimedOut,
}

/// Why `connect-once` stops before it asks BlueZ to connect, if it does.
/// `current` says whether the command is still to be carried out.
pub fn pinned_refusal(found: &PinnedLookup, current: Result<(), &'static str>) -> (r: Option<String>)
    ensures
        match *found {
            PinnedLookup::Failed(e) => r matches Some(why) && why@
                == "could not verify pinned device: "@ + e@,
            PinnedLookup::TimedOut => r matches Some(why) && why@
                == "timed out verifying pinned device"@,
            PinnedLookup::Missing => r matches Some(why) && why@ == (match current {
                Ok(()) =>
                "pinned device is unavailable or not paired; BlueZ connect was not attempted"@,
                Err(e) => e@,
            }),
            PinnedLookup::Paired => match current {
                Ok(()) => r is None,
                Err(e) => r matches Some(why) && why@ == e@,
            },
        },
{
    match found {
        PinnedLookup::Failed(e) => {
            let mut text: String = "could not verify pinned device: ".to_owned();
            text.append(e.as_str());
            Some(text)
        },
        PinnedLookup::TimedOut => Some("timed out verifying pinned device".to_owned()),
        PinnedLookup::Missing => match current {
            Ok(()) => Some(
                "pinned device is unavailable or not paired; BlueZ connect was not attempted".to_owned(),
            ),
            Err(e) => Some(e.to_owned()),
        },
        PinnedLookup::Paired => match current {
            Ok(()) => None,
            Err(e) => Some(e.to_owned()),
        },
    }
}

/// What `connect-once` answers once BlueZ was asked; `None` means that BlueZ
/// did not answer in time. The request cannot be recalled, and it is never
/// made again automatically.
pub fn connect_once_answer(result: Option<Result<(), String>>) -> (r: Result<(), String>)
    ensures
        match result {
            Some(Ok(())) => r is Ok,
            Some(Err(e)) => r matches Err(why) && why@ == "BlueZ connect-once failed: "@ + e@,
            None => r matches Err(why) && why@
                == "BlueZ connect-once timed out; it may still complete; aurisd will not retry"@,
        },
{
    match result {
        Some(Ok(())) => Ok(()),
        Some(Err(e)) => {
            let mut text: String = "BlueZ connect-once failed: ".to_owned();
            text.append(e.as_str());
            Err(text)
        },
        None => Err(
            "BlueZ connect-once timed out; it may still complete; aurisd will not retry".to_owned(),
        ),
    }
}

/// What BlueZ says of the local link of the selected device; `None` means that
/// the answer came too late.
pub fn local_connected(
    selected: bool,
    answer: Option<Result<bool, String>>,
) -> (r: Result<bool, String>)
    ensures
        if !selected {
            r matches Err(why) && why@ == "selected Bluetooth device is not known yet"@
        } else {
            match answer {
                Some(Ok(connected)) => r == Ok::<bool, String>(connected),
                Some(Err(e)) => r matches Err(why) && why@
                    == "could not verify BlueZ local Connected state: "@ + e@,
                None => r matches Err(why) && why@
                    == "timed out verifying BlueZ local Connected state"@,
            }
        },
{
    if !selected {
        return Err("selected Bluetooth device is not known yet".to_owned());
    }
    match answer {
        Some(Ok(connected)) => Ok(connected),
        Some(Err(e)) => {
            let mut text: String = "could not verify BlueZ local Connected state: ".to_owned();
            text.append(e.as_str());
            Err(text)
        },
        None => Err("timed out verifying BlueZ local Connected state".to_owned()),
    }
}

} // verus!
