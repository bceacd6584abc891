//! The supervisor as a whole: who may dial, what is sent, what is given up.

use aurisd::aap::codec::{
    decode, encode_handshake, encode_owns_connection, encode_rename, encode_request_notifications,
    encode_request_notifications_alt, encode_set_adaptive_level, encode_set_features,
    FeaturesVariant,
};
use aurisd::aap::session::command::{
    claim_retry, connect_once_answer, first_failure, local_connected, pinned_refusal, AfterSend,
    Claim, CommandPlan, HandoffStep, PinnedLookup,
};
use aurisd::aap::session::link::{evidence_of, Evidence};
use aurisd::aap::session::opening::{
    AutoConnectOptions, HandoffOptions, Opening, OpeningStep, Report,
};
use aurisd::aap::session::tick::LinkStep;
use aurisd::aap::session::{
    hex_bytes, is_awaited, pick_variant, Awaited, DialKind, Effect, Moment, SessionConfig,
    Supervisor, BATTERY_WATCHDOG, FEATURES_ACK_WAIT, HANDSHAKE_ACK_WAIT, IDLE_PROBE_GRACE,
    IDLE_TIMEOUT, MAX_NOTIF_RESENDS, NO_LINK, READBACK_WINDOW, SETTLE, VERIFY_BUDGET,
    VERIFY_DEBOUNCE,
};
use aurisd::aap::socket::{send_outcome, Sent};
use aurisd::address::Address;
use aurisd::audio_route::RouteMode;
use aurisd::bluez::{ClaimEnd, LinkEvent};
use aurisd::clock::{Duration, Instant, MILLISECOND, SECOND};
use aurisd::config::{AutoconnectConfig, HandoffConfig};
use aurisd::ctl_proto::Request;
use aurisd::handoff::Action;
use aurisd::rejoin::{ListedHost, Outcome, Pending};
use aurisd::settings::{MicrophoneMode, SettingCommand};
use aurisd::state::{LinkReason, NoiseControlMode, Snapshot};
use aurisd::store::{LinkActivity, Update};

const T0: Instant = 3_600 * SECOND;
const ADAPTER: Address = Address([0x5C, 0xF3, 0x70, 0x0D, 0x0E, 0x0F]);
const DEVICE: Address = Address([0xBC, 0x80, 0x4E, 1, 2, 3]);
const BATTERY: [u8; 12] = [4, 0, 4, 0, 0x04, 0, 1, 0x04, 0x01, 0x50, 0x01, 0x01];

fn at(now: Instant) -> Moment {
    Moment {
        now,
        utc: format!("{:06}Z", now / SECOND),
        local: "2026-07-11T12:00:00+02:00".to_owned(),
    }
}

fn identity(pinned: bool) -> LinkEvent {
    LinkEvent::Identity {
        adapter: ADAPTER,
        address: DEVICE,
        name: None,
        model_id: None,
        pinned,
    }
}

fn supervisor(pinned: bool) -> Supervisor {
    let mut sup = Supervisor::new(SessionConfig::default());
    sup.on_link(identity(pinned), None, &at(T0));
    sup.take_effects();
    sup
}

fn open_link(sup: &mut Supervisor) {
    sup.on_link(LinkEvent::Connected(true), None, &at(T0));
    let due = at(T0 + SETTLE);
    assert_eq!(sup.tick_link(&due), LinkStep::Dial);
    let dial = sup.begin_dial(&due).unwrap();
    assert!(sup.authorize_dial(dial.kind, dial.generation, Ok(true), &due));
    sup.begin_opening(&due);
    sup.finish_opening(&due);
    sup.take_effects();
}

fn model(id: &str) -> Snapshot {
    let mut s = Snapshot::initial("BC:80:4E:01:02:03");
    s.device.model_id = id.to_owned();
    s
}

fn links(sup: &mut Supervisor) -> Vec<Option<LinkActivity>> {
    sup.take_effects()
        .into_iter()
        .filter_map(|e| match e {
            Effect::Publish(Update::Link(activity)) => Some(activity),
            _ => None,
        })
        .collect()
}

/// Walk through an opening in which every move succeeds.
fn smooth(variant: FeaturesVariant) -> Vec<OpeningStep> {
    let mut opening = Opening::new(variant);
    let mut steps = Vec::new();
    let mut report = Report::Begun;
    loop {
        let step = opening.next(report, true);
        report = Report::Done;
        let last = step == OpeningStep::Finish;
        steps.push(step);
        if last {
            return steps;
        }
    }
}

fn ack(want: Awaited) -> OpeningStep {
    let budget = match want {
        Awaited::Handshake => HANDSHAKE_ACK_WAIT,
        Awaited::Features => FEATURES_ACK_WAIT,
    };
    OpeningStep::Await { want, budget }
}

#[test]
fn the_default_opening_negotiates_before_it_subscribes() {
    let variant = FeaturesVariant::D7;
    assert_eq!(
        smooth(variant),
        [
            OpeningStep::Send(encode_handshake()),
            ack(Awaited::Handshake),
            OpeningStep::Send(encode_set_features(variant)),
            ack(Awaited::Features),
            OpeningStep::Send(encode_request_notifications()),
            OpeningStep::Finish,
        ]
    );
}

#[test]
fn the_alternate_opening_subscribes_first() {
    let variant = FeaturesVariant::Alt;
    assert_eq!(
        smooth(variant),
        [
            OpeningStep::Send(encode_handshake()),
            ack(Awaited::Handshake),
            OpeningStep::Send(encode_request_notifications_alt()),
            OpeningStep::Send(encode_request_notifications()),
            OpeningStep::Send(encode_set_features(variant)),
            ack(Awaited::Features),
            OpeningStep::Finish,
        ]
    );
}

#[test]
fn an_unanswered_handshake_breaks_an_opening_and_unanswered_features_do_not() {
    let mut opening = Opening::new(FeaturesVariant::D7);
    opening.next(Report::Begun, true);
    assert!(opening.is_broken(Report::Failed));
    assert!(!opening.is_broken(Report::TimedOut));
    opening.next(Report::Done, true);
    assert!(opening.is_broken(Report::TimedOut));
    opening.next(Report::Done, true);
    opening.next(Report::Done, true);
    assert!(!opening.is_broken(Report::TimedOut));
    assert!(opening.is_broken(Report::Failed));
    assert_eq!(
        opening.next(Report::TimedOut, true),
        OpeningStep::Send(encode_request_notifications())
    );
    assert_eq!(opening.next(Report::Done, true), OpeningStep::Finish);
}

#[test]
fn a_link_that_changed_stops_its_opening() {
    let mut opening = Opening::new(FeaturesVariant::Alt);
    assert_eq!(opening.next(Report::Begun, false), OpeningStep::Stop);
    opening.next(Report::Begun, true);
    assert_eq!(opening.next(Report::Done, false), OpeningStep::Stop);
}

#[test]
fn only_the_wanted_acknowledgement_counts() {
    let features = [4, 0, 4, 0, 0x2b, 0];
    assert!(is_awaited(Awaited::Features, &features));
    assert!(!is_awaited(Awaited::Handshake, &features));
    assert!(is_awaited(Awaited::Handshake, &[1, 0, 4, 0, 0, 0]));
    assert!(!is_awaited(Awaited::Features, &BATTERY));
}

#[test]
fn a_dial_is_taken_up_once() {
    let mut sup = supervisor(false);
    assert!(sup.begin_dial(&at(T0)).is_none(), "nothing is dialed without a link");
    sup.on_link(LinkEvent::Connected(true), None, &at(T0));
    let dial = sup.begin_dial(&at(T0)).unwrap();
    assert_eq!(dial.kind, DialKind::Automatic);
    assert_eq!(dial.generation, sup.link_generation());
    assert_eq!(sup.dial_kind(), None);
    assert_eq!(sup.dial_at(), None);
    assert!(sup.begin_dial(&at(T0)).is_none());
}

#[test]
fn a_dial_for_another_link_is_not_authorized() {
    let mut sup = supervisor(false);
    sup.on_link(LinkEvent::Connected(true), None, &at(T0));
    let old = sup.link_generation();
    sup.on_link(LinkEvent::Connected(false), None, &at(T0));
    sup.on_link(LinkEvent::Connected(true), None, &at(T0));
    assert_ne!(sup.link_generation(), old);
    assert!(!sup.authorize_dial(DialKind::Automatic, old, Ok(true), &at(T0)));
    let now = sup.link_generation();
    assert!(sup.authorize_dial(DialKind::Automatic, now, Ok(true), &at(T0)));
    let unread = Err("no answer".to_owned());
    assert!(!sup.authorize_dial(DialKind::Automatic, now, unread, &at(T0)));
}

#[test]
fn a_watch_that_ended_changes_nothing() {
    let mut sup = supervisor(false);
    open_link(&mut sup);
    let generation = sup.link_generation();
    sup.on_link(LinkEvent::WatchEnded, None, &at(T0 + SECOND));
    assert!(sup.is_open() && sup.is_local());
    assert_eq!(sup.link_generation(), generation);
    assert!(sup.take_effects().is_empty());
}

#[test]
fn suppression_lasts_until_a_new_local_link() {
    let mut sup = supervisor(false);
    open_link(&mut sup);
    sup.suppress_automatic(&at(T0 + SECOND));
    assert!(sup.auto_suppressed() && sup.is_local() && !sup.is_open());
    assert_eq!((sup.dial_kind(), sup.dial_at()), (None, None));
    sup.on_packet(&BATTERY, None, &at(T0 + SECOND));
    sup.on_link(identity(false), None, &at(T0 + SECOND));
    assert!(sup.auto_suppressed());
    assert_eq!(sup.dial_kind(), None);
    sup.on_link(LinkEvent::AdapterGone, None, &at(T0 + SECOND));
    assert!(sup.auto_suppressed());
    sup.on_link(LinkEvent::Connected(true), None, &at(T0 + 2 * SECOND));
    assert!(!sup.auto_suppressed());
    assert_eq!(sup.dial_at(), Some(T0 + 2 * SECOND + SETTLE));
}

#[test]
fn packets_carry_no_authority() {
    let mut sup = supervisor(false);
    for packet in [&BATTERY[..], &[1, 0, 4, 0], &[4, 0, 4, 0, 0x06, 0, 1, 0], &[4, 0], &[]] {
        sup.on_packet(packet, None, &at(T0));
        assert!(!sup.is_local() && !sup.is_open());
        assert_eq!(sup.dial_kind(), None);
    }
}

#[test]
fn the_first_variant_that_produces_a_battery_is_kept() {
    let mut sup = supervisor(false);
    let dials = |sup: &mut Supervisor, n: Duration| {
        let t = at(T0 + n * 60 * SECOND);
        sup.on_link(LinkEvent::Connected(false), None, &t);
        sup.on_link(LinkEvent::Connected(true), None, &t);
        let first = sup.begin_opening(&t);
        sup.on_link(LinkEvent::Connected(true), None, &t);
        (first, sup.begin_opening(&t))
    };
    let (first, second) = dials(&mut sup, 0);
    assert_ne!(first, second, "dials of one link alternate");
    sup.on_packet(&BATTERY, None, &at(T0));
    assert_eq!(dials(&mut sup, 1), (second, second));
    assert_eq!(pick_variant(None, None, 0), first);
    assert_eq!(pick_variant(None, None, 1), second);
    assert_eq!(pick_variant(Some(first), Some(second), 1), first);
}

#[test]
fn the_battery_watchdog_asks_again_before_it_gives_up() {
    let mut sup = supervisor(false);
    open_link(&mut sup);
    let mut now = T0 + SETTLE;
    for _ in 0..MAX_NOTIF_RESENDS {
        assert_eq!(sup.tick_link(&at(now + BATTERY_WATCHDOG - 1)), LinkStep::Nothing);
        now += BATTERY_WATCHDOG;
        assert_eq!(sup.tick_link(&at(now)), LinkStep::RequestNotifications);
        assert!(sup.is_open());
    }
    now += BATTERY_WATCHDOG;
    assert_eq!(sup.tick_link(&at(now)), LinkStep::Nothing);
    assert!(!sup.is_open() && sup.auto_suppressed());
}

#[test]
fn every_packet_answers_the_idle_probe() {
    let mut sup = supervisor(false);
    open_link(&mut sup);
    sup.on_packet(&BATTERY, None, &at(T0 + SETTLE));
    let idle = T0 + SETTLE + IDLE_TIMEOUT;
    assert_eq!(sup.tick_link(&at(idle)), LinkStep::RequestNotifications);
    sup.on_packet(&[0xff], None, &at(idle + SECOND));
    assert_eq!(sup.tick_link(&at(idle + IDLE_PROBE_GRACE)), LinkStep::Nothing);
    assert!(sup.is_open());
    let again = idle + SECOND + IDLE_TIMEOUT;
    assert_eq!(sup.tick_link(&at(again)), LinkStep::RequestNotifications);
    assert_eq!(sup.tick_link(&at(again + IDLE_PROBE_GRACE)), LinkStep::Nothing);
    assert!(!sup.is_open());
}

#[test]
fn time_alone_opens_nothing() {
    let mut sup = supervisor(false);
    sup.on_link(LinkEvent::Connected(true), None, &at(T0));
    for n in 0..20 {
        let t = at(T0 + n * 250 * MILLISECOND);
        sup.tick(None, &t);
        sup.tick_verification(&t);
        sup.expire_verification(&t);
        let due = n * 250 * MILLISECOND >= SETTLE;
        let step = sup.tick_link(&t);
        assert_eq!(step, if due { LinkStep::Dial } else { LinkStep::Nothing });
        assert!(!sup.is_open());
    }
    sup.verify_checked(Ok(true), &at(T0 + 6 * SECOND));
    assert!(!sup.is_open());
}

#[test]
fn nothing_is_sent_without_a_link_or_to_another_model() {
    let setting = Request::SetSetting {
        setting: SettingCommand::Microphone(MicrophoneMode::Left),
    };
    let noise = Request::SetNoiseControl {
        value: NoiseControlMode::Anc,
    };
    let mut sup = supervisor(false);
    let closed = CommandPlan::Refuse(NO_LINK.to_owned());
    assert_eq!(
        sup.on_command(noise.clone(), &model("201B"), true, None, &at(T0)),
        closed
    );
    assert_eq!(
        sup.on_command(setting.clone(), &model("201B"), true, None, &at(T0)),
        closed
    );
    open_link(&mut sup);
    assert!(matches!(
        sup.on_command(setting.clone(), &model("2014"), true, None, &at(T0)),
        CommandPlan::Refuse(_)
    ));
    assert!(matches!(
        sup.on_command(setting, &model("201B"), true, None, &at(T0)),
        CommandPlan::Send { after: AfterSend::ReadBackSetting(_), .. }
    ));
    assert!(matches!(
        sup.on_command(noise, &model("2014"), true, None, &at(T0)),
        CommandPlan::Send { after: AfterSend::Publish(_), .. }
    ));
    let adaptive = Request::SetAdaptiveLevel { value: 200 };
    assert_eq!(
        sup.on_command(adaptive, &model(""), true, None, &at(T0)),
        CommandPlan::Send {
            packet: encode_set_adaptive_level(100),
            after: AfterSend::Publish(Update::AdaptiveLevel(100)),
        }
    );
}

#[test]
fn a_name_goes_out_once_and_is_read_back() {
    let mut sup = supervisor(false);
    open_link(&mut sup);
    sup.on_packet(&BATTERY, None, &at(T0 + SECOND));
    let rename = Request::Rename { name: "Pods".into() };
    let CommandPlan::Send { packet, after } =
        sup.on_command(rename, &model("201B"), true, None, &at(T0 + SECOND))
    else {
        panic!("not sent");
    };
    assert_eq!(Ok(packet), encode_rename("Pods"));
    sup.take_effects();
    sup.command_sent(after, &at(T0 + SECOND));
    assert_eq!(
        sup.take_effects(),
        [Effect::Publish(Update::RenameRequested("Pods".into()))]
    );
    let early = at(T0 + SECOND + VERIFY_DEBOUNCE - 1);
    assert!(!sup.tick_verification(&early));
    let due = at(T0 + SECOND + VERIFY_DEBOUNCE);
    assert!(sup.tick_verification(&due));
    assert!(!sup.tick_verification(&due), "one reopen per write");
    sup.verify_checked(Ok(true), &due);
    assert!(!sup.is_open());
    assert!(sup.take_effects().contains(&Effect::Publish(Update::VerifyReopening)));
    assert_eq!(sup.dial_kind(), Some(DialKind::Manual));
    sup.expire_verification(&at(T0 + SECOND + VERIFY_BUDGET));
    assert!(sup.take_effects().contains(&Effect::Publish(Update::VerifyFailed)));
}

#[test]
fn a_shown_value_starts_no_readback() {
    let mut sup = supervisor(false);
    open_link(&mut sup);
    sup.on_packet(&BATTERY, None, &at(T0 + SECOND));
    sup.take_effects();
    sup.command_sent(AfterSend::Publish(Update::AdaptiveLevel(7)), &at(T0 + SECOND));
    assert_eq!(sup.take_effects(), [Effect::Publish(Update::AdaptiveLevel(7))]);
    assert!(!sup.tick_verification(&at(T0 + 60 * SECOND)));
}

#[test]
fn a_dump_is_judged_once() {
    let mut sup = supervisor(false);
    open_link(&mut sup);
    let due = at(T0 + SETTLE + READBACK_WINDOW);
    sup.tick_verification(&due);
    assert!(sup.take_effects().contains(&Effect::Publish(Update::VerifyCompleted)));
    sup.tick_verification(&due);
    assert!(sup.take_effects().is_empty());
}

#[test]
fn an_explicit_connect_needs_a_pin() {
    let asked = |sup: &mut Supervisor| {
        sup.on_command(Request::ConnectOnce, &model(""), true, None, &at(T0))
    };
    assert!(matches!(asked(&mut supervisor(false)), CommandPlan::Refuse(_)));
    assert_eq!(
        asked(&mut supervisor(true)),
        CommandPlan::ConnectOnce {
            adapter: ADAPTER,
            device: DEVICE,
        }
    );
    let mut sup = supervisor(true);
    asked(&mut sup);
    assert!(!sup.is_local());
    assert_eq!(sup.dial_kind(), None);
}

#[test]
fn each_end_of_an_explicit_connect_is_answered() {
    let current = Ok(());
    let gone = Err("request client disconnected");
    let said = |found: PinnedLookup, current| pinned_refusal(&found, current);
    assert_eq!(said(PinnedLookup::Paired, current), None);
    assert_eq!(
        said(PinnedLookup::Paired, gone).as_deref(),
        Some("request client disconnected")
    );
    assert_eq!(
        said(PinnedLookup::Missing, current).as_deref(),
        Some("pinned device is unavailable or not paired; BlueZ connect was not attempted")
    );
    assert_eq!(
        said(PinnedLookup::Failed("x".into()), gone).as_deref(),
        Some("could not verify pinned device: x")
    );
    assert_eq!(
        said(PinnedLookup::TimedOut, current).as_deref(),
        Some("timed out verifying pinned device")
    );
    assert_eq!(connect_once_answer(Some(Ok(()))), Ok(()));
    assert_eq!(
        connect_once_answer(Some(Err("x".into()))),
        Err("BlueZ connect-once failed: x".into())
    );
    assert_eq!(
        connect_once_answer(None),
        Err("BlueZ connect-once timed out; it may still complete; aurisd will not retry".into())
    );
}

#[test]
fn the_local_link_is_read_or_the_failure_is_said() {
    assert_eq!(local_connected(true, Some(Ok(true))), Ok(true));
    assert_eq!(local_connected(true, Some(Ok(false))), Ok(false));
    assert_eq!(
        local_connected(false, None),
        Err("selected Bluetooth device is not known yet".into())
    );
    assert_eq!(
        local_connected(true, Some(Err("x".into()))),
        Err("could not verify BlueZ local Connected state: x".into())
    );
    assert_eq!(
        local_connected(true, None),
        Err("timed out verifying BlueZ local Connected state".into())
    );
}

#[test]
fn a_reconnect_reopens_only_what_is_local() {
    let mut sup = supervisor(false);
    open_link(&mut sup);
    let t = at(T0 + SECOND);
    assert_eq!(
        sup.on_command(Request::Reconnect, &model(""), true, None, &t),
        CommandPlan::Reconnect
    );
    assert_eq!(
        sup.reconnect_checked(Ok(false), Ok(()), &t),
        Err("device is not connected locally; aurisd will not ask BlueZ to connect it".into())
    );
    assert_eq!(sup.reconnect_checked(Err("x".into()), Ok(()), &t), Err("x".into()));
    assert_eq!(sup.reconnect_checked(Ok(true), Err("late"), &t), Err("late".into()));
    assert!(sup.is_open());
    assert_eq!(sup.reconnect_checked(Ok(true), Ok(()), &t), Ok(()));
    assert!(!sup.is_open());
    assert_eq!(sup.dial_kind(), Some(DialKind::Manual));
}

#[test]
fn a_failed_send_ends_recovery_and_says_so() {
    let mut sup = supervisor(false);
    open_link(&mut sup);
    let said = sup.command_send_failed("broken pipe", &at(T0 + SECOND));
    assert_eq!(said, "failed to send command: broken pipe");
    assert!(sup.auto_suppressed() && !sup.is_open());
    assert_eq!(send_outcome(Sent::Bytes(9), 9), Ok(()));
    assert!(send_outcome(Sent::Bytes(8), 9).is_err());
}

#[test]
fn auto_connect_stands_back_for_the_user() {
    let mut sup = supervisor(false).with_autoconnect(AutoConnectOptions {
        config: AutoconnectConfig::default(),
        control_link: true,
    });
    sup.on_sighting(Some(-45), &at(T0));
    assert!(sup.autoconnect_pending());
    sup.on_command(Request::Reconnect, &model(""), true, None, &at(T0));
    assert!(!sup.autoconnect_pending());
    sup.on_sighting(Some(-45), &at(T0 + SECOND));
    assert!(!sup.autoconnect_pending());
    sup.on_page_finished(1, Outcome::Busy, &at(T0 + 2 * SECOND));
    assert!(!sup.autoconnect_pending());
}

#[test]
fn a_reconnect_sequence_keeps_its_start_and_is_shown_once() {
    let mut sup = supervisor(false);
    let pending = |attempt: u8| {
        Some(Pending {
            seq: 4,
            attempt,
            link_lost: true,
        })
    };
    let shown = |attempt: u32| {
        Some(LinkActivity {
            reason: LinkReason::LinkLost,
            attempt,
            since: at(T0).utc,
        })
    };
    sup.rejoin_seen(pending(0), &at(T0));
    assert_eq!(links(&mut sup), [shown(0)]);
    sup.rejoin_seen(pending(0), &at(T0 + 9 * SECOND));
    assert_eq!(links(&mut sup), []);
    sup.rejoin_seen(pending(1), &at(T0 + 9 * SECOND));
    assert_eq!(links(&mut sup), [shown(1)]);
    sup.rejoin_seen(None, &at(T0 + 10 * SECOND));
    assert_eq!(links(&mut sup), [None]);
}

#[test]
fn the_audio_profile_is_claimed_by_the_owner_alone() {
    let mut sup = supervisor(false).with_handoff(HandoffOptions {
        config: HandoffConfig::default(),
        control_audio_profiles: true,
    });
    assert_eq!(sup.claim_audio(), None);
    open_link(&mut sup);
    let t = at(T0 + 5 * SECOND);
    assert_eq!(
        sup.on_command(Request::TakeOver, &model(""), true, None, &t),
        CommandPlan::Perform
    );
    let first = sup.claim_audio().unwrap();
    assert_eq!((first.0, first.1, first.2), (ADAPTER, DEVICE, sup.claim_epoch()));
    let second = sup.claim_audio().unwrap();
    assert_ne!(first.2, second.2);
    sup.on_command(Request::Yield, &model(""), true, None, &t);
    assert_eq!(sup.claim_audio(), None);
    assert_eq!(
        [claim_retry(0), claim_retry(1), claim_retry(2), claim_retry(3)],
        [Some(700 * MILLISECOND), Some(1500 * MILLISECOND), Some(3 * SECOND), None]
    );
}

#[test]
fn a_claim_is_tried_again_only_while_busy_and_current() {
    let mut claim = Claim::new(7);
    assert!(claim.is_current(7));
    assert!(!claim.is_current(8));
    assert_eq!(claim.ended(ClaimEnd::Busy), Some(700 * MILLISECOND));
    assert_eq!(claim.ended(ClaimEnd::Busy), Some(1500 * MILLISECOND));
    assert_eq!(claim.ended(ClaimEnd::Failed), None);
    assert_eq!(claim.ended(ClaimEnd::Busy), Some(3 * SECOND));
    assert_eq!(claim.ended(ClaimEnd::Busy), None);
    assert_eq!(Claim::new(7).ended(ClaimEnd::TimedOut), None);
    assert_eq!(Claim::new(7).ended(ClaimEnd::Connected), None);
}

#[test]
fn each_handoff_action_is_one_step() {
    let mut sup = supervisor(false);
    assert_eq!(sup.perform(Action::SendOwnership(true)), HandoffStep::NoLink);
    open_link(&mut sup);
    assert_eq!(
        sup.perform(Action::SendOwnership(true)),
        HandoffStep::Send(encode_owns_connection(true))
    );
    assert_eq!(sup.perform(Action::ClaimAudio), HandoffStep::Claim);
    assert_eq!(
        sup.perform(Action::SetAudioRoute(RouteMode::Yielded)),
        HandoffStep::YieldRoute
    );
    assert_eq!(
        sup.perform(Action::SetAudioRoute(RouteMode::Own)),
        HandoffStep::Nothing
    );
}

#[test]
fn without_a_configuration_file_the_switch_is_not_saved() {
    let mut sup = supervisor(false);
    let asked = Request::SetHandoff { enabled: true };
    assert_eq!(
        sup.on_command(asked.clone(), &model(""), false, None, &at(T0)),
        CommandPlan::Refuse("no configuration file path; handoff setting was not changed".into())
    );
    assert_eq!(
        sup.on_command(asked, &model(""), true, None, &at(T0)),
        CommandPlan::SaveHandoff(true)
    );
    assert!(!sup.handoff_view().enabled);
    sup.handoff_saved(true, None, &at(T0));
    assert!(sup.handoff_view().enabled);
    assert!(sup.take_effects().contains(&Effect::PublishHandoff));
}

#[test]
fn raw_bytes_are_written_in_lower_case() {
    assert_eq!(hex_bytes(&[0x04, 0xff, 0x0a]), "04 ff 0a");
    assert_eq!(hex_bytes(&[]), "");
}

#[test]
fn a_packet_is_evidence_of_hosts_relays_and_the_case() {
    let said = |packet: &[u8]| evidence_of(&decode(packet).unwrap());
    assert_eq!(
        said(&[4, 0, 4, 0, 0x06, 0, 2, 2]),
        Some(Evidence::Ear { both_in_case: true })
    );
    assert_eq!(
        said(&[4, 0, 4, 0, 0x06, 0, 2, 1]),
        Some(Evidence::Ear { both_in_case: false })
    );
    let hosts = [
        4, 0, 4, 0, 0x2e, 0, 1, 0, 2, 0x5c, 0xf3, 0x70, 0x0d, 0x0e, 0x0f, 2, 2, 0xbc, 0x80, 0x4e, 1,
        2, 3, 0, 2,
    ];
    let host = |address: Address, link_up: bool| ListedHost { address, link_up };
    assert_eq!(
        said(&hosts),
        Some(Evidence::ConnectedDevices(vec![host(ADAPTER, true), host(DEVICE, false)]))
    );
    let relay = [4, 0, 4, 0, 0x11, 0, 3, 2, 1, 0x4e, 0x80, 0xbc, 0, 0];
    assert_eq!(said(&relay), Some(Evidence::Relay { sender: DEVICE }));
    assert_eq!(said(&BATTERY), None);
}

#[test]
fn the_first_failure_is_answered() {
    let (a, b) = (Some("a".to_owned()), Some("b".to_owned()));
    assert_eq!(first_failure(a.clone(), b.clone()), a);
    assert_eq!(first_failure(None, b.clone()), b);
    assert_eq!(first_failure(a.clone(), None), a);
    assert_eq!(first_failure(None, None), None);
}
