use aurisd::aap::codec::{
    decode, encode_handshake, encode_set_setting, BatteryComponent, BatteryEntry, FeaturesVariant,
    Packet,
};
use aurisd::aap::session::command::{AfterSend, CommandPlan, HandoffStep};
use aurisd::aap::session::opening::{AutoConnectOptions, HandoffOptions};
use aurisd::aap::session::tick::LinkStep;
use aurisd::aap::session::{
    both_buds_in_case, command_is_current, idle_decision, pick_variant, settings_model_error,
    DialKind, Effect, IdleAction, Moment, SessionConfig, Supervisor, BATTERY_WATCHDOG,
    BUD_SWITCH_WINDOW, CONNECT_TIMEOUT, FEATURES_ACK_WAIT, HANDSHAKE_ACK_WAIT, IDLE_PROBE_GRACE,
    IDLE_TIMEOUT, READBACK_WINDOW, SETTLE, TICK, VERIFY_BUDGET, VERIFY_DEBOUNCE,
};
use aurisd::aap::socket::{send_outcome, Sent};
use aurisd::address::Address;
use aurisd::audio_route::RouteMode;
use aurisd::bluez::LinkEvent;
use aurisd::clock::{Duration, Instant, MILLISECOND, SECOND};
use aurisd::config::{AutoconnectConfig, EarConfig, HandoffConfig, PrimaryBud};
use aurisd::ctl_proto::Request;
use aurisd::ear_media;
use aurisd::handoff::Action;
use aurisd::mpris::{MprisCommand, PlaybackReading};
use aurisd::rejoin::{LinkFacts, Pending};
use aurisd::settings::{PressSpeed, SettingCommand};
use aurisd::state::{
    Ear, EarState, HandoffEventKind, HandoffOwner, Link, LinkReason, LinkStatus, NoiseControl,
    Snapshot,
};
use aurisd::state::EarState::{Case, In, Out, Unknown};
use aurisd::store::{Store, Update};

/// Where the clock stands when a test starts.
const T0: Instant = 3_600 * SECOND;

/// The local time of everything that is published.
const STAMP: &str = "2026-07-11T12:00:00+02:00";

fn secs(n: u64) -> Duration {
    Duration::from(n) * SECOND
}

/// The UTC time that goes with the clock, for the hours a test lasts.
fn utc(now: Instant) -> String {
    let s = now / SECOND;
    format!("2026-07-11T{:02}:{:02}:{:02}Z", s / 3600 % 24, s / 60 % 60, s % 60)
}

fn at(now: Instant) -> Moment {
    Moment {
        now,
        utc: utc(now),
        local: STAMP.to_owned(),
    }
}

fn addr(s: &str) -> Address {
    Address::parse(s).unwrap()
}

/// Publish what the supervisor decided.
fn publish(sup: &mut Supervisor, store: &mut Store) {
    for effect in sup.take_effects() {
        match effect {
            Effect::Publish(update) => store.apply(update, STAMP),
            Effect::PublishHandoff => store.apply(Update::Handoff(sup.handoff_view()), STAMP),
            _ => {}
        }
    }
}

fn store() -> Store {
    Store::new(Snapshot::initial(""), PrimaryBud::Auto)
}

fn published(sup: &mut Supervisor) -> Vec<Update> {
    sup.take_effects()
        .into_iter()
        .filter_map(|e| match e {
            Effect::Publish(update) => Some(update),
            _ => None,
        })
        .collect()
}

fn asked_of_players(sup: &mut Supervisor) -> Vec<MprisCommand> {
    sup.take_effects()
        .into_iter()
        .filter_map(|e| match e {
            Effect::Mpris(command) => Some(command),
            _ => None,
        })
        .collect()
}

/// Bring the AAP link up on a local link that just came up at `now`.
fn open_link(sup: &mut Supervisor, now: Instant) {
    sup.on_link(LinkEvent::Connected(true), None, &at(now));
    let due = now + SETTLE;
    assert_eq!(sup.tick_link(&at(due)), LinkStep::Dial);
    let dial = sup.begin_dial(&at(due)).unwrap();
    assert!(sup.authorize_dial(dial.kind, dial.generation, Ok(true), &at(due)));
    sup.begin_opening(&at(due));
    sup.finish_opening(&at(due));
    assert!(sup.is_open());
}

#[test]
fn only_both_buds_in_the_case_counts_as_put_away() {
    assert!(both_buds_in_case(Case, Case));
    // A bud swap: one bud back in the case and charging, the other in an
    // ear or out of it. The AirPods are in use, and a rejoin stays open.
    for (primary, secondary) in [
        (Case, In),
        (In, Case),
        (Case, Out),
        (Out, Case),
        (In, Out),
        (Out, In),
        (In, In),
        (Out, Out),
        (Case, Unknown),
        (Unknown, Case),
        (Unknown, Unknown),
    ] {
        assert!(
            !both_buds_in_case(primary, secondary),
            "{primary:?}/{secondary:?}"
        );
    }
}

#[test]
fn an_ear_report_decides_nothing_but_the_in_case_flag() {
    // The wire bytes of an ear-detection report: primary out of ear,
    // secondary in ear. It must not read as the case.
    let packet = decode(&[0x04, 0x00, 0x04, 0x00, 0x06, 0x00, 0x01, 0x00]);
    match packet {
        Ok(Packet::EarDetection { primary, secondary }) => {
            assert_eq!((primary, secondary), (EarState::Out, EarState::In));
            assert!(!both_buds_in_case(primary, secondary));
        }
        other => panic!("expected an ear detection packet, got {other:?}"),
    }
}

#[test]
fn a_setting_write_puts_exactly_one_datagram_on_the_link() {
    let setting = SettingCommand::PressSpeed(PressSpeed::Slower);
    let packet = encode_set_setting(&setting).unwrap();
    let mut sup = supervisor();
    open_link(&mut sup, T0);
    let mut snapshot = Snapshot::initial("BC:80:4E:01:02:03");
    snapshot.device.model_id = "201B".to_owned();
    let plan = sup.on_command(
        Request::SetSetting {
            setting: setting.clone(),
        },
        &snapshot,
        false,
        None,
        &at(T0 + SECOND),
    );
    assert_eq!(
        plan,
        CommandPlan::Send {
            packet: packet.clone(),
            after: AfterSend::ReadBackSetting(setting)
        }
    );
    // A datagram goes out whole, or it was not sent.
    assert!(send_outcome(Sent::Bytes(packet.len()), packet.len()).is_ok());
    assert!(send_outcome(Sent::Failed("broken pipe".to_owned()), packet.len()).is_err());
    assert!(send_outcome(Sent::Bytes(packet.len() - 1), packet.len()).is_err());
}

#[test]
fn a_readback_without_a_link_gives_up_instead_of_dialing() {
    let setting = SettingCommand::PressSpeed(PressSpeed::Slower);
    let mut store = Store::new(Snapshot::initial("AA:BB:CC:DD:EE:01"), PrimaryBud::Auto);
    let mut sup = Supervisor::new(SessionConfig::default());
    let sent = T0 + secs(1);
    sup.command_sent(AfterSend::ReadBackSetting(setting), &at(sent));
    publish(&mut sup, &mut store);
    assert_eq!(store.snapshot().settings_status.get("press_speed"), Some("verifying"));

    assert!(!sup.tick_verification(&at(sent + VERIFY_DEBOUNCE)));
    publish(&mut sup, &mut store);
    let snapshot = store.snapshot();
    assert_eq!(snapshot.settings_status.get("press_speed"), Some("unverified"));
    assert_eq!(snapshot.settings_verify, "idle");
    assert!(!snapshot.verify_reopen);
    // A readback is never a reason to make BlueZ connect anything.
    assert!(sup.dial_at().is_none());
    // Neither timer is left.
    assert!(!sup.tick_verification(&at(sent + VERIFY_BUDGET)));
    sup.expire_verification(&at(sent + VERIFY_BUDGET));
    assert!(sup.take_effects().is_empty());
}

#[test]
fn the_dump_window_closes_on_time_without_a_battery_packet() {
    let setting = SettingCommand::PressSpeed(PressSpeed::Slower);
    let mut store = Store::new(Snapshot::initial("AA:BB:CC:DD:EE:01"), PrimaryBud::Auto);
    let mut sup = supervisor();
    open_link(&mut sup, T0);
    let sent = T0 + secs(1);
    sup.command_sent(AfterSend::ReadBackSetting(setting.clone()), &at(sent));
    let due = sent + VERIFY_DEBOUNCE;
    assert!(sup.tick_verification(&at(due)), "the local link is to be checked");
    sup.verify_checked(Ok(true), &at(due));
    assert!(!sup.is_open(), "the link is reopened for the dump");
    publish(&mut sup, &mut store);
    assert!(store.snapshot().verify_reopen);
    let dial = sup.begin_dial(&at(due)).unwrap();
    assert!(sup.authorize_dial(dial.kind, dial.generation, Ok(true), &at(due)));
    sup.begin_opening(&at(due));
    sup.finish_opening(&at(due));
    sup.on_packet(&encode_set_setting(&setting).unwrap(), None, &at(due));
    publish(&mut sup, &mut store);

    sup.tick_verification(&at(due + READBACK_WINDOW - 1));
    assert!(published(&mut sup).is_empty());
    sup.tick_verification(&at(due + READBACK_WINDOW));
    publish(&mut sup, &mut store);
    let snapshot = store.snapshot();
    assert_eq!(snapshot.settings_status.get("press_speed"), Some("confirmed"));
    assert_eq!(snapshot.settings_verify, "idle");
    assert!(!snapshot.verify_reopen);
    // Neither timer is left.
    sup.tick_verification(&at(sent + VERIFY_BUDGET));
    sup.expire_verification(&at(sent + VERIFY_BUDGET));
    assert!(published(&mut sup).is_empty());
}

#[test]
fn readback_timers_fit_the_observed_dump_behaviour() {
    // The debounce must leave room for the reopen, the opening sequence
    // and the dump inside the published 10 s budget.
    assert!(
        VERIFY_DEBOUNCE + HANDSHAKE_ACK_WAIT + FEATURES_ACK_WAIT + READBACK_WINDOW
            < VERIFY_BUDGET
    );
    assert!(VERIFY_DEBOUNCE > TICK);
}

#[test]
fn idle_watchdog_probes_before_recycling() {
    let t0 = T0;
    // Fresh traffic: nothing to do.
    assert_eq!(idle_decision(t0, Some(t0), None), IdleAction::Nothing);
    // Silence past the threshold asks for a probe, not a recycle.
    let idle = t0 + IDLE_TIMEOUT;
    assert_eq!(idle_decision(idle, Some(t0), None), IdleAction::Probe);
    // With a probe outstanding, wait out the grace period.
    assert_eq!(
        idle_decision(idle, Some(t0), Some(idle)),
        IdleAction::Nothing
    );
    assert_eq!(
        idle_decision(idle + IDLE_PROBE_GRACE, Some(t0), Some(idle)),
        IdleAction::Recycle
    );
    // A packet after the probe clears the suspicion.
    let answered = idle + secs(1);
    assert_eq!(
        idle_decision(idle + IDLE_PROBE_GRACE, Some(answered), Some(idle)),
        IdleAction::Nothing
    );
}

#[test]
fn local_link_edges_arm_at_most_one_automatic_dial() {
    let mut sup = Supervisor::new(SessionConfig::default());
    sup.on_link(LinkEvent::Connected(true), None, &at(T0));
    assert_eq!(sup.dial_kind(), Some(DialKind::Automatic));
    let first_generation = sup.link_generation();

    // Repeated `true` is not a fresh local reconnect and cannot rearm.
    sup.suppress_automatic(&at(T0));
    sup.on_link(LinkEvent::Connected(true), None, &at(T0));
    assert_eq!(sup.dial_kind(), None);
    assert_eq!(sup.link_generation(), first_generation);

    sup.on_link(LinkEvent::Connected(false), None, &at(T0));
    sup.on_link(LinkEvent::Connected(true), None, &at(T0));
    assert_eq!(
        sup.dial_kind(),
        Some(DialKind::Automatic),
        "a new false->true observation starts a new local-link period"
    );
}

#[test]
fn identity_change_cancels_authority_before_a_dial() {
    let mut sup = Supervisor::new(SessionConfig::default());
    let adapter = addr("00:11:22:33:44:55");
    let first = addr("AA:BB:CC:DD:EE:01");
    let second = addr("AA:BB:CC:DD:EE:02");

    sup.on_link(identity(adapter, first), None, &at(T0));
    sup.on_link(LinkEvent::Connected(true), None, &at(T0));
    let old_generation = sup.link_generation();
    assert_eq!(sup.dial_kind(), Some(DialKind::Automatic));

    sup.on_link(identity(adapter, second), None, &at(T0));
    assert!(!sup.is_local());
    assert_eq!(sup.dial_kind(), None);
    assert_ne!(sup.link_generation(), old_generation);
}

#[test]
fn fake_checker_and_link_events_cannot_authorize_an_unsafe_dial() {
    let mut sup = Supervisor::new(SessionConfig::default());
    sup.on_link(LinkEvent::Connected(true), None, &at(T0));
    let generation = sup.link_generation();

    // The checker seam returns false: no dial can start and no retry is
    // left armed in this local-link period.
    let fake_disconnected_checker = || Ok::<bool, ()>(false);
    assert!(!sup.authorize_dial(
        DialKind::Automatic,
        generation,
        fake_disconnected_checker().map_err(|_| "fake checker: disconnected".into()),
        &at(T0),
    ));
    assert!(sup.auto_suppressed());
    assert_eq!(sup.dial_kind(), None);

    // A late disconnect and adapter loss invalidate an in-flight opening
    // generation even if a checker had returned true earlier.
    sup.on_link(LinkEvent::Connected(false), None, &at(T0));
    assert!(!sup.opening_alive(generation));
    sup.on_link(LinkEvent::AdapterGone, None, &at(T0));
    assert!(!sup.opening_alive(generation));
}

#[test]
fn disconnect_cancels_a_real_pending_handshake_wait() {
    let mut sup = Supervisor::new(SessionConfig::default());
    sup.on_link(LinkEvent::Connected(true), None, &at(T0));
    let generation = sup.link_generation();
    assert!(sup.opening_alive(generation));
    sup.on_link(LinkEvent::Connected(false), None, &at(T0));
    assert!(!sup.opening_alive(generation));
    assert!(!sup.is_local());
}

#[test]
fn tentative_opening_cleanup_invalidates_aap_data_without_a_promoted_socket() {
    let mut store = store();
    let mut sup = Supervisor::new(SessionConfig::default());
    store.apply(
        Update::Battery(vec![BatteryEntry {
            component: BatteryComponent::Left,
            level: Some(40),
            charging: false,
            present: true,
        }]),
        STAMP,
    );
    assert!(store.snapshot().battery.left.fresh);
    assert!(!sup.is_open());
    sup.drop_socket(&at(T0));
    publish(&mut sup, &mut store);
    assert!(!store.snapshot().battery.left.fresh);
}

#[test]
fn queued_context_change_rejects_a_non_status_command_before_action() {
    let mut store = store();
    let queued = store.connection_context();
    let same = store.connection_context().is_same(&queued);
    assert_eq!(command_is_current(false, T0, T0 + secs(1), same), Ok(()));
    // The context was captured before the local link changed.
    store.apply(Update::AclConnected(true), STAMP);
    let same = store.connection_context().is_same(&queued);
    assert_eq!(
        command_is_current(false, T0, T0 + secs(1), same),
        Err("request context changed before execution")
    );
    assert_eq!(store.snapshot().noise_control, NoiseControl::Unknown);
}

#[test]
fn expired_and_closed_queued_commands_are_inert() {
    assert_eq!(
        command_is_current(false, T0, T0 - MILLISECOND, true),
        Err("request expired before execution")
    );
    assert_eq!(
        command_is_current(true, T0, T0 + secs(1), true),
        Err("request client disconnected")
    );
}

#[test]
fn features_variant_from_env_defaults_to_contract_packet() {
    assert_eq!(SessionConfig::default().features, None);
    assert_eq!(SessionConfig::default().psm, 0x1001);
    assert_eq!(pick_variant(None, None, 0), FeaturesVariant::D7);
}

#[test]
fn variant_alternates_until_one_produces_battery() {
    // Even dials take the default variant, odd dials the alternate, so a
    // session that saw no battery is followed by the other variant.
    assert_eq!(pick_variant(None, None, 0), FeaturesVariant::D7);
    assert_eq!(pick_variant(None, None, 1), FeaturesVariant::Alt);
    assert_eq!(pick_variant(None, None, 2), FeaturesVariant::D7);
    assert_eq!(pick_variant(None, None, 3), FeaturesVariant::Alt);
    // A proven variant sticks whatever the attempt number.
    for n in 0..4 {
        assert_eq!(
            pick_variant(None, Some(FeaturesVariant::Alt), n),
            FeaturesVariant::Alt
        );
        assert_eq!(
            pick_variant(None, Some(FeaturesVariant::D7), n),
            FeaturesVariant::D7
        );
    }
    // The environment overrides both.
    assert_eq!(
        pick_variant(Some(FeaturesVariant::Alt), Some(FeaturesVariant::D7), 0),
        FeaturesVariant::Alt
    );
    assert_eq!(
        pick_variant(Some(FeaturesVariant::Alt), None, 2),
        FeaturesVariant::Alt
    );
}

#[test]
fn opening_acks_are_recognised_by_the_codec() {
    // What an opening matches on, without needing a socket.
    assert!(matches!(
        decode(&[0x01, 0x00, 0x04, 0x00, 0x00, 0x00]),
        Ok(Packet::HandshakeAck)
    ));
    assert!(matches!(
        decode(&[0x04, 0x00, 0x04, 0x00, 0x2b, 0x00, 0x00]),
        Ok(Packet::FeaturesAck)
    ));
    // The handshake we send is not itself an ack.
    assert!(!matches!(
        decode(&encode_handshake()),
        Ok(Packet::HandshakeAck | Packet::FeaturesAck)
    ));
}

#[test]
fn ack_budgets_fit_inside_the_battery_watchdog() {
    // Both waits happen before the watchdog is armed, so it must still be
    // the longer window once the link is claimed.
    assert!(HANDSHAKE_ACK_WAIT + FEATURES_ACK_WAIT < BATTERY_WATCHDOG);
    assert!(HANDSHAKE_ACK_WAIT + FEATURES_ACK_WAIT < CONNECT_TIMEOUT + BATTERY_WATCHDOG);
}

#[test]
fn settings_model_gate_uses_the_current_did() {
    let mut snapshot = Snapshot::initial("");
    assert!(settings_model_error(&snapshot)
        .unwrap()
        .contains("model is unknown"));

    snapshot.device.model_id = "200E".into();
    assert!(settings_model_error(&snapshot)
        .unwrap()
        .contains("unsupported device model 200E"));

    snapshot.device.model_id = "201B".into();
    assert_eq!(settings_model_error(&snapshot), None);
}

fn identity(adapter: Address, address: Address) -> LinkEvent {
    LinkEvent::Identity {
        adapter,
        address,
        name: None,
        model_id: None,
        pinned: false,
    }
}

fn supervisor() -> Supervisor {
    let mut sup = Supervisor::new(SessionConfig::default());
    sup.on_link(
        identity(addr("5C:F3:70:0D:0E:0F"), addr("BC:80:4E:01:02:03")),
        None,
        &at(T0),
    );
    sup.take_effects();
    sup
}

const LOCAL_IDLE: [u8; 13] = [
    4, 0, 4, 0, 0x0e, 0, 0x0f, 0x0e, 0x0d, 0x70, 0xf3, 0x5c, 0x00,
];
const DEVICES: [u8; 17] = [
    4, 0, 4, 0, 0x2e, 0, 0x01, 0x00, 0x01, 0x5c, 0xf3, 0x70, 0x0d, 0x0e, 0x0f, 0x02, 0x02,
];
const OTHER_MEDIA: [u8; 13] = [
    4, 0, 4, 0, 0x0e, 0, 0x22, 0x11, 0x00, 0xe7, 0x83, 0xa4, 0x02,
];
/// 0x002E listing this host and the Mac, header 01 00.
const DEVICES_WITH_MAC: [u8; 25] = [
    4, 0, 4, 0, 0x2e, 0, 0x01, 0x00, 0x02, 0x5c, 0xf3, 0x70, 0x0d, 0x0e, 0x0f, 0x02, 0x02,
    0xfc, 0xb2, 0x14, 0x0a, 0x0b, 0x0c, 0x02, 0x02,
];

fn handoff_supervisor() -> Supervisor {
    supervisor().with_handoff(HandoffOptions {
        config: HandoffConfig {
            enabled: true,
            ..HandoffConfig::default()
        },
        ..HandoffOptions::default()
    })
}

const READY: Option<LinkFacts> = Some(LinkFacts {
    powered: true,
    paired: true,
    blocked: false,
});

/// A rejoin that was scheduled because another host took the AirPods.
const TAKEN: Pending = Pending {
    seq: 1,
    attempt: 0,
    link_lost: false,
};

/// AAP reset, Connected=false, then `Disconnected` with `reason`, after which
/// `scheduled` is pending.
fn drop_link(sup: &mut Supervisor, reason: &str, scheduled: Option<Pending>, t: &Moment) {
    sup.suppress_automatic(t);
    sup.on_link(LinkEvent::Connected(false), None, t);
    sup.on_link(
        LinkEvent::Disconnected {
            reason: reason.into(),
            message: String::new(),
            facts: READY,
        },
        scheduled,
        t,
    );
}

#[test]
fn airpods_reports_are_published_while_handoff_is_disabled() {
    let mut store = store();
    let mut sup = supervisor();
    sup.on_packet(&LOCAL_IDLE, None, &at(T0));
    sup.on_packet(&DEVICES, None, &at(T0));
    publish(&mut sup, &mut store);
    let h = store.snapshot().handoff.clone();
    let src = h.audio_source.expect("audio source published");
    assert_eq!(src.address, "5C:F3:70:0D:0E:0F");
    assert!(src.is_local);
    assert_eq!(h.devices.len(), 1);
    assert!(h.devices[0].is_local);

    sup.on_packet(&OTHER_MEDIA, None, &at(T0));
    publish(&mut sup, &mut store);
    let h = store.snapshot().handoff.clone();
    assert_eq!(h.owner, HandoffOwner::Other);
    assert!(!h.audio_source.unwrap().is_local);
    assert!(h.last_event.is_none());
    assert!(sup.handoff_actions().is_empty());
}

#[test]
fn an_enabled_supervisor_queues_a_yield_and_publishes_it() {
    let mut store = store();
    let mut sup = handoff_supervisor();
    sup.on_packet(&OTHER_MEDIA, None, &at(T0));
    // Pause, then take the card off the AirPods, then release ownership.
    assert_eq!(
        *sup.handoff_actions(),
        [
            Action::PauseLocalPlayers,
            Action::SetAudioRoute(RouteMode::Yielded),
            Action::SendOwnership(false),
        ]
    );
    publish(&mut sup, &mut store);
    let event = store.snapshot().handoff.last_event.clone().expect("event published");
    assert_eq!(event.kind, HandoffEventKind::Yielded);
    assert_eq!(event.peer.as_deref(), Some("A4:83:E7:00:11:22"));
}

const SPOTIFY: &str = "org.mpris.MediaPlayer2.spotify";

/// Report `reading`, wait out the settle time and report it again.
fn settle_ear(sup: &mut Supervisor, primary: u8, secondary: u8, now: Instant) {
    let packet = [4, 0, 4, 0, 0x06, 0, primary, secondary];
    let side = |b: u8| match b {
        0x00 => EarState::In,
        0x01 => EarState::Out,
        _ => EarState::Case,
    };
    let ear = Ear {
        left: side(primary),
        right: side(secondary),
    };
    sup.on_packet(&packet, None, &at(now));
    sup.on_ear(ear, &at(now));
    sup.tick(None, &at(now + ear_media::SETTLE));
}

#[test]
fn a_bud_leaving_and_returning_pauses_and_resumes_local_players() {
    let mut sup = supervisor().with_ear_media(EarConfig::default());
    sup.on_link(LinkEvent::Connected(true), None, &at(T0));
    sup.on_playback(
        PlaybackReading {
            playing: true,
            app: Some("Spotify".to_owned()),
            player: Some(SPOTIFY.to_owned()),
        },
        &at(T0),
    );

    // Both buds in is the baseline, not a change.
    settle_ear(&mut sup, 0x00, 0x00, T0);
    assert!(
        asked_of_players(&mut sup).is_empty(),
        "a baseline reading pauses nothing"
    );

    settle_ear(&mut sup, 0x00, 0x01, T0 + secs(2));
    assert_eq!(asked_of_players(&mut sup), [MprisCommand::PausePlaying]);
    // None of this is a handoff: no actions, no owner, no event.
    assert!(sup.handoff_actions().is_empty());
    assert_eq!(sup.handoff_view().owner, HandoffOwner::Unknown);
    assert!(sup.handoff_view().last_event.is_none());

    // The pause lands, then the bud goes back in.
    sup.on_playback(
        PlaybackReading {
            playing: false,
            app: None,
            player: None,
        },
        &at(T0 + secs(3)),
    );
    settle_ear(&mut sup, 0x00, 0x00, T0 + secs(4));
    assert_eq!(
        asked_of_players(&mut sup),
        [MprisCommand::Play(SPOTIFY.to_owned())]
    );
    assert!(sup.handoff_actions().is_empty());
    assert_eq!(sup.handoff_view().owner, HandoffOwner::Unknown);
}

/// 0x0C primary bud address report for `BC:80:4E:01:02:03`, trailer 01 02.
const BUD_LEFT: [u8; 14] = [
    4, 0, 4, 0, 0x0c, 0, 0x03, 0x02, 0x01, 0x4e, 0x80, 0xbc, 0x01, 0x02,
];
/// The same report after the role moved to the other bud.
const BUD_RIGHT: [u8; 14] = [
    4, 0, 4, 0, 0x0c, 0, 0x5c, 0xe8, 0xda, 0x4e, 0x80, 0xbc, 0x01, 0x02,
];

#[test]
fn a_scheduled_rejoin_publishes_a_reconnecting_link() {
    let mut store = store();
    let mut sup = handoff_supervisor();
    sup.on_link(LinkEvent::Connected(true), None, &at(T0));
    publish(&mut sup, &mut store);
    assert_eq!(store.snapshot().link.status, LinkStatus::Connected);

    sup.on_packet(&DEVICES_WITH_MAC, None, &at(T0));
    let dropped = at(T0 + secs(1));
    drop_link(&mut sup, "org.bluez.Reason.Remote", Some(TAKEN), &dropped);
    publish(&mut sup, &mut store);

    let link = store.snapshot().link.clone();
    assert_eq!(link.status, LinkStatus::Reconnecting);
    // No bud address report, so the Mac taking over is the explanation.
    assert_eq!(link.reason, Some(LinkReason::TakenOver));
    assert_eq!(link.attempt, 0, "only scheduled, no connect started yet");
    let since = link.since.expect("a start time");
    assert!(since.ends_with('Z'), "{since}");
    assert!(
        chrono::DateTime::parse_from_rfc3339(&since).is_ok(),
        "{since}"
    );
    assert_eq!(since, dropped.utc);
}

#[test]
fn a_bud_role_switch_just_before_the_drop_reads_as_bud_switch() {
    let mut store = store();
    let mut sup = handoff_supervisor();
    let switched = at(T0);
    sup.on_packet(&DEVICES_WITH_MAC, None, &switched);
    sup.on_packet(&BUD_LEFT, None, &switched);
    sup.on_packet(&BUD_LEFT, None, &switched);
    assert!(!sup.bud_switched_recently(T0), "no change yet");
    sup.on_packet(&BUD_RIGHT, None, &switched);

    drop_link(
        &mut sup,
        "org.bluez.Reason.Remote",
        Some(TAKEN),
        &at(T0 + secs(5)),
    );
    publish(&mut sup, &mut store);
    assert_eq!(store.snapshot().link.status, LinkStatus::Reconnecting);
    assert_eq!(store.snapshot().link.reason, Some(LinkReason::BudSwitch));
}

#[test]
fn an_old_bud_role_switch_is_not_the_reason_for_the_drop() {
    let mut store = store();
    let mut sup = handoff_supervisor();
    sup.on_packet(&DEVICES_WITH_MAC, None, &at(T0));
    sup.on_packet(&BUD_LEFT, None, &at(T0));
    sup.on_packet(&BUD_RIGHT, None, &at(T0));

    drop_link(
        &mut sup,
        "org.bluez.Reason.Remote",
        Some(TAKEN),
        &at(T0 + BUD_SWITCH_WINDOW + secs(5)),
    );
    publish(&mut sup, &mut store);
    assert_eq!(
        store.snapshot().link.reason,
        Some(LinkReason::TakenOver),
        "a switch older than the window explains nothing"
    );
}

#[test]
fn a_new_link_session_forgets_the_bud_address_history() {
    let mut sup = handoff_supervisor();
    sup.on_packet(&BUD_LEFT, None, &at(T0));
    sup.on_packet(&BUD_RIGHT, None, &at(T0));
    assert!(sup.bud_switched_recently(T0));
    sup.on_link(LinkEvent::Connected(true), None, &at(T0));
    assert!(!sup.bud_switched_recently(T0));
    // The first report of the new session is no change.
    sup.on_packet(&BUD_LEFT, None, &at(T0));
    assert!(!sup.bud_switched_recently(T0));
}

#[test]
fn a_supervision_timeout_reads_as_link_lost() {
    let mut store = store();
    let mut sup = handoff_supervisor();
    sup.on_packet(&DEVICES_WITH_MAC, None, &at(T0));
    let lost = Pending {
        link_lost: true,
        ..TAKEN
    };
    drop_link(&mut sup, "org.bluez.Reason.Timeout", Some(lost), &at(T0));
    publish(&mut sup, &mut store);
    assert_eq!(store.snapshot().link.status, LinkStatus::Reconnecting);
    assert_eq!(store.snapshot().link.reason, Some(LinkReason::LinkLost));
}

#[test]
fn a_cancelled_rejoin_publishes_a_disconnected_link() {
    let mut store = store();
    let mut sup = handoff_supervisor();
    sup.on_packet(&DEVICES_WITH_MAC, None, &at(T0));
    drop_link(&mut sup, "org.bluez.Reason.Remote", Some(TAKEN), &at(T0));
    publish(&mut sup, &mut store);
    assert_eq!(store.snapshot().link.status, LinkStatus::Reconnecting);

    // An explicit reconnect takes the sequence over; nothing is healing.
    sup.rejoin_seen(None, &at(T0 + secs(1)));
    publish(&mut sup, &mut store);
    assert_eq!(store.snapshot().link, Link::default());
}

fn watching(sup: Supervisor) -> Supervisor {
    sup.with_autoconnect(AutoConnectOptions {
        config: AutoconnectConfig {
            enabled: true,
            ..AutoconnectConfig::default()
        },
        control_link: false,
    })
}

#[test]
fn the_proximity_scanner_path_publishes_auto_connect() {
    let mut store = store();
    let mut sup = watching(supervisor());
    let seen = at(T0);
    sup.on_sighting(Some(-45), &seen);
    assert!(sup.autoconnect_pending());
    publish(&mut sup, &mut store);

    let link = store.snapshot().link.clone();
    assert_eq!(link.status, LinkStatus::Reconnecting);
    assert_eq!(link.reason, Some(LinkReason::AutoConnect));
    assert_eq!(link.attempt, 0);
    assert_eq!(link.since, Some(seen.utc));

    // The AirPods answer the page: the link is simply connected again.
    sup.on_link(LinkEvent::Connected(true), None, &at(T0 + secs(1)));
    publish(&mut sup, &mut store);
    let link = store.snapshot().link.clone();
    assert_eq!(link.status, LinkStatus::Connected);
    assert!(link.reason.is_none());
    assert!(link.since.is_none());
}

#[test]
fn a_rejoin_outranks_a_pending_auto_connect_in_the_published_reason() {
    let mut store = store();
    let mut sup = watching(handoff_supervisor());
    sup.on_sighting(Some(-45), &at(T0));
    publish(&mut sup, &mut store);
    assert_eq!(store.snapshot().link.reason, Some(LinkReason::AutoConnect));

    sup.on_packet(&DEVICES_WITH_MAC, None, &at(T0));
    drop_link(&mut sup, "org.bluez.Reason.Remote", Some(TAKEN), &at(T0));
    publish(&mut sup, &mut store);
    assert_eq!(store.snapshot().link.reason, Some(LinkReason::TakenOver));
}

#[test]
fn a_yield_drains_local_playback_before_switching_the_card_off() {
    let mut sup = supervisor().with_handoff(HandoffOptions {
        config: HandoffConfig {
            enabled: true,
            ..HandoffConfig::default()
        },
        control_audio_profiles: true,
    });
    sup.on_packet(&OTHER_MEDIA, None, &at(T0));
    sup.take_effects();
    let queued = sup.take_handoff();
    assert!(sup.handoff_actions().is_empty());
    let steps: Vec<HandoffStep> = queued.into_iter().map(|a| sup.perform(a)).collect();
    assert_eq!(
        steps,
        [
            HandoffStep::Mpris(MprisCommand::PausePlaying),
            HandoffStep::YieldRoute,
            HandoffStep::NoLink,
        ]
    );
    // The card moves only once the drain is over.
    assert!(sup.take_effects().is_empty());
    sup.yield_route();
    assert_eq!(
        sup.take_effects(),
        [Effect::Route {
            device: addr("BC:80:4E:01:02:03"),
            mode: RouteMode::Yielded
        }]
    );
}
