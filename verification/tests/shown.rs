//! What the command line shows and how it ends.

use aurisd::cli::{
    cell, conclude, failure_line, handoff_summary, kind_name, noise_label, outcome_for, owner_name,
    request_from_command, settle_setting, status_name, summary, watch_outcome, Command,
    Conclusion, Outcome, WatchEnd,
};
use aurisd::ctl_proto::{Request, Response};
use aurisd::settings::{read_json, CallControls, MicrophoneMode, SettingCommand};
use aurisd::state::{
    AudioSourceStatus, Cell, Handoff, HandoffAudioSource, HandoffDevice, HandoffEvent,
    HandoffEventKind, HandoffOwner, NoiseControl, NoiseControlMode, Snapshot, Source,
};

fn level(level: u8, charging: bool) -> Cell {
    Cell {
        level: Some(level),
        charging,
        present: true,
        fresh: true,
        ..Cell::default()
    }
}

#[test]
fn a_summary_of_nothing_says_so() {
    let mut empty = Snapshot::initial("");
    empty.settings_api = 0;
    assert_eq!(
        summary(&empty),
        "AirPods [unknown model] no device: disconnected\n\
         battery: L --  R --  case --  (last known)\n\
         noise: unknown   source: none\n\
         settings: unavailable (older daemon)\n"
    );
}

#[test]
fn a_summary_shows_levels_modes_and_settings() {
    let mut s = Snapshot::initial("BC:80:4E:01:02:03");
    s.device.name = "Buds".into();
    s.device.model = Some("AirPods 4 (ANC)".into());
    s.device.connected = true;
    s.battery.stale = false;
    s.battery.left = level(0, true);
    s.battery.right = level(100, false);
    s.battery.case = Cell { present: false, ..level(30, true) };
    s.noise_control = NoiseControl::Adaptive;
    s.daemon.source = Source::Ble;
    s.settings.microphone = Some(MicrophoneMode::Left);
    s.settings.listening_mode_cycle = Some(vec![NoiseControlMode::Anc, NoiseControlMode::Off]);
    s.settings.personalized_volume = Some(true);
    assert_eq!(
        summary(&s),
        "Buds [AirPods 4 (ANC)] BC:80:4E:01:02:03: connected (no AAP link)\n\
         battery: L 0% (charging)  R 100%  case --\n\
         noise: adaptive   source: ble\n\
         settings:\n  microphone: \"left\"\n  press_speed: unknown\n  hold_duration: unknown\n  \
         listening_mode_cycle: [\"anc\",\"off\"]\n  call_controls: unknown\n  \
         personalized_volume: true\n"
    );
    s.device.aap_link = true;
    s.daemon.source = Source::Aap;
    assert!(summary(&s).contains(": connected\n"));
    assert!(summary(&s).contains("source: aap\n"));
    assert_eq!(cell("L", &level(7, false)), "L 7%");
}

#[test]
fn a_handoff_summary_names_hosts_and_peers() {
    let mut s = Snapshot::initial("BC:80:4E:01:02:03");
    assert_eq!(
        handoff_summary(&s),
        "handoff: off (take over on play: no)\n\
         apple device id: unknown\n\
         owner: unknown\n\
         audio source: unknown\n\
         devices: none\n\
         last event: none\n"
    );
    let host = |address: &str, is_local: bool| HandoffDevice {
        address: address.to_owned(),
        is_local,
    };
    s.handoff = Handoff {
        enabled: true,
        take_over_on_play: true,
        apple_host_id: Some(false),
        owner: HandoffOwner::Other,
        audio_source: Some(HandoffAudioSource {
            address: "A4:83:E7:00:11:22".into(),
            is_local: false,
            state: AudioSourceStatus::Media,
        }),
        devices: vec![host("A4:83:E7:00:11:22", false), host("00:11:22:33:44:55", true)],
        last_event: Some(HandoffEvent {
            kind: HandoffEventKind::YieldRequested,
            at: "2026-07-11T12:00:00+02:00".into(),
            peer: Some("A4:83:E7:00:11:22".into()),
        }),
    };
    assert_eq!(
        handoff_summary(&s),
        "handoff: on (take over on play: yes)\n\
         apple device id: no (set DeviceID = bluetooth:004C:0000:0000 and re-pair)\n\
         owner: other\n\
         audio source: A4:83:E7:00:11:22 (other host) media\n\
         devices: A4:83:E7:00:11:22 (other host), 00:11:22:33:44:55 (this host)\n\
         last event: yield_requested at 2026-07-11T12:00:00+02:00 (peer A4:83:E7:00:11:22)\n"
    );
}

#[test]
fn every_mode_and_state_has_its_wire_name() {
    assert_eq!(noise_label(NoiseControl::Off), "off");
    assert_eq!(noise_label(NoiseControl::Anc), "anc");
    assert_eq!(noise_label(NoiseControl::Transparency), "transparency");
    assert_eq!(noise_label(NoiseControl::Unknown), "unknown");
    assert_eq!(owner_name(HandoffOwner::Local), "local");
    assert_eq!(status_name(AudioSourceStatus::Idle), "idle");
    assert_eq!(status_name(AudioSourceStatus::Call), "call");
    assert_eq!(kind_name(HandoffEventKind::Yielded), "yielded");
    assert_eq!(kind_name(HandoffEventKind::TookOver), "took_over");
}

#[test]
fn a_failure_is_one_line() {
    assert_eq!(failure_line(" no\nsuch socket\n"), "auris: no such socket");
}

#[test]
fn a_watch_without_an_answer_is_not_verified() {
    let said = |end: WatchEnd| watch_outcome(end).line();
    assert_eq!(
        said(WatchEnd::CouldNotWatch("denied".into())),
        ("sent but not verified: could not watch the daemon: denied".into(), 1)
    );
    assert_eq!(
        said(WatchEnd::TimedOut),
        (
            "sent but not verified: the AirPods did not report the setting back in time".into(),
            1
        )
    );
    assert_eq!(
        said(WatchEnd::Closed),
        ("sent but not verified: the daemon closed the subscription".into(), 1)
    );
    assert_eq!(
        said(WatchEnd::Lost("reset".into())),
        ("sent but not verified: lost the daemon subscription: reset".into(), 1)
    );
}

#[test]
fn an_unknown_status_is_no_success() {
    let mut s = Snapshot::initial("");
    s.settings_status.insert("microphone".into(), "odd".into());
    assert_eq!(
        outcome_for(&s, "microphone"),
        Some(Outcome::Unverified("the daemon reported an unknown status odd".into()))
    );
    s.settings_status.insert("name".into(), "mismatch".into());
    assert_eq!(outcome_for(&s, "name"), Some(Outcome::Kept("a different name".into())));
    s.device.name = "Pods".into();
    assert_eq!(outcome_for(&s, "name"), Some(Outcome::Kept("Pods".into())));
}

#[test]
fn a_setting_is_refused_before_it_is_sent() {
    let settled = |key: &str, text: &str, fault: Option<&str>| {
        let unread = "unknown variant `3`";
        settle_setting(key, fault.map(str::to_owned), &read_json(text), unread)
    };
    assert_eq!(
        settled("call_controls", "\"hangup_once_mute_twice\"", None),
        Ok(SettingCommand::CallControls(CallControls::HangupOnceMuteTwice))
    );
    assert_eq!(
        settled("microphone", "left", Some("expected value")),
        Err("invalid JSON value for microphone: expected value".to_owned())
    );
    assert_eq!(
        settled("microphone", "3", None),
        Err("invalid setting: unknown variant `3`".to_owned())
    );
    assert_eq!(
        settled("listening_mode_cycle", "[\"anc\"]", None),
        Err("listening_mode_cycle needs at least two modes".to_owned())
    );
    assert_eq!(
        settled("listening_mode_cycle", "[\"anc\",\"anc\"]", None),
        Err("listening_mode_cycle lists a mode twice".to_owned())
    );
}

#[test]
fn a_value_that_is_no_json_is_reported_in_the_parsers_words() {
    let asked = request_from_command(Command::Setting {
        key: "microphone".into(),
        value: "left".into(),
        unread: "unknown variant".into(),
    });
    let said = asked.unwrap_err();
    assert!(said.starts_with("invalid JSON value for microphone: "), "{said}");
    assert!(said.len() > "invalid JSON value for microphone: ".len());
    let fine = request_from_command(Command::Setting {
        key: "microphone".into(),
        value: "\"left\"".into(),
        unread: String::new(),
    });
    let odd = request_from_command(Command::Setting {
        key: "volume".into(),
        value: "1".into(),
        unread: "unknown variant `volume`".into(),
    });
    assert_eq!(odd.unwrap_err(), "invalid setting: unknown variant `volume`");
    assert_eq!(
        fine.unwrap().request,
        Request::SetSetting { setting: SettingCommand::Microphone(MicrophoneMode::Left) }
    );
}

#[test]
fn an_acknowledged_write_is_watched_and_a_refusal_fails() {
    let ok = |notice, key: Option<&str>| {
        conclude(Response::ok(), false, false, notice, key.map(str::to_owned))
    };
    assert_eq!(ok(None, Some("name")), Conclusion::Await("name".into()));
    assert_eq!(ok(Some("sent"), None), Conclusion::Notice("sent"));
    assert_eq!(ok(None, None), Conclusion::Quiet);
    let refused = |error: Option<&str>| Response::Ack {
        ok: false,
        error: error.map(str::to_owned),
    };
    let failed = |error| conclude(refused(error), true, false, None, Some("name".into()));
    assert_eq!(failed(Some("no link")), Conclusion::Fail("no link".into()));
    assert_eq!(failed(None), Conclusion::Fail("command failed".into()));
}

#[test]
fn a_status_is_shown_as_asked() {
    let s = Snapshot::initial("BC:80:4E:01:02:03");
    let shown = |json, handoff| {
        conclude(Response::Status(Box::new(s.clone())), json, handoff, None, None)
    };
    assert_eq!(shown(true, false), Conclusion::Document(Box::new(s.clone())));
    assert_eq!(shown(false, true), Conclusion::Show(handoff_summary(&s)));
    assert_eq!(shown(false, false), Conclusion::Show(summary(&s)));
}
