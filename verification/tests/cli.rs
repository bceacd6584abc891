use aurisd::cli::{handoff_summary, outcome_for, request_from_command, Command, HandoffChoice};
use aurisd::ctl_proto::Request;
use aurisd::settings::PressSpeed;
use aurisd::state::{
    Handoff, HandoffDevice, HandoffEvent, HandoffEventKind, HandoffOwner, NoiseControlMode,
    Snapshot,
};

fn rename(name: &str) -> Command {
    Command::Rename(name.to_owned())
}

fn setting(key: &str, value: &str) -> Command {
    Command::Setting {
        key: key.to_owned(),
        value: value.to_owned(),
        unread: "unreadable".to_owned(),
    }
}

fn request(command: Command) -> Result<Request, String> {
    request_from_command(command).map(|parsed| parsed.request)
}

/// A daemon whose AirPods went over to another host.
fn example() -> Snapshot {
    Snapshot {
        handoff: Handoff {
            enabled: true,
            take_over_on_play: true,
            apple_host_id: Some(true),
            owner: HandoffOwner::Other,
            audio_source: None,
            devices: vec![HandoffDevice {
                address: "A4:83:E7:00:11:22".to_owned(),
                is_local: false,
            }],
            last_event: Some(HandoffEvent {
                kind: HandoffEventKind::Yielded,
                at: "2026-07-11T12:00:00+02:00".to_owned(),
                peer: Some("A4:83:E7:00:11:22".to_owned()),
            }),
        },
        ..Snapshot::initial("AC:DE:48:00:11:22")
    }
}

#[test]
fn rename_validates_utf8_bytes_and_controls_before_transport() {
    let at_limit = format!("{}a", "é".repeat(127));
    assert!(matches!(
        request(rename(&at_limit)),
        Ok(Request::Rename { name }) if name == at_limit
    ));

    let too_long = "é".repeat(128);
    assert!(request(rename(&too_long)).is_err());
    assert!(request(rename("   ")).is_err());
    assert!(request(rename("bad\nname")).is_err());

    let shell_like = "$(touch /tmp/auris-must-not-run)";
    assert!(matches!(
        request(rename(shell_like)),
        Ok(Request::Rename { name }) if name == shell_like
    ));
}

#[test]
fn setting_accepts_typed_json_values() {
    for args in [
        ["microphone", "\"left\""],
        ["press_speed", "\"slower\""],
        ["hold_duration", "\"shortest\""],
        ["call_controls", "\"mute_once_hangup_twice\""],
        ["personalized_volume", "true"],
        ["listening_mode_cycle", "[\"anc\",\"transparency\"]"],
    ] {
        assert!(matches!(request(setting(args[0], args[1])), Ok(Request::SetSetting { .. })));
    }
}

#[test]
fn setting_rejects_malformed_or_wrong_json_types() {
    for args in [
        ["microphone", "left"],
        ["microphone", "\"middle\""],
        ["personalized_volume", "\"true\""],
        ["listening_mode_cycle", "\"anc\""],
        ["listening_mode_cycle", "[]"],
        ["listening_mode_cycle", "[\"anc\",\"anc\"]"],
        ["not_a_setting", "true"],
    ] {
        assert!(request(setting(args[0], args[1])).is_err(), "accepted {args:?}");
    }
}

#[test]
fn existing_commands_still_parse() {
    assert!(matches!(
        request(Command::Noise(NoiseControlMode::Anc)),
        Ok(Request::SetNoiseControl {
            value: NoiseControlMode::Anc
        })
    ));
    assert!(matches!(request(Command::Status { json: false }), Ok(Request::Status)));
    assert!(matches!(
        request(Command::ConnectOnce),
        Ok(Request::ConnectOnce)
    ));
}

#[test]
fn handoff_commands_parse_to_their_requests() {
    assert_eq!(
        request(Command::Handoff(HandoffChoice::On)),
        Ok(Request::SetHandoff { enabled: true })
    );
    assert_eq!(
        request(Command::Handoff(HandoffChoice::Off)),
        Ok(Request::SetHandoff { enabled: false })
    );
    assert_eq!(request(Command::TakeOver), Ok(Request::TakeOver));
    assert_eq!(request(Command::Yield), Ok(Request::Yield));
    let parsed = request_from_command(Command::Handoff(HandoffChoice::Status)).unwrap();
    assert_eq!(parsed.request, Request::Status);
    assert!(parsed.handoff_view && !parsed.wants_json);
    let text = handoff_summary(&example());
    assert!(
        text.starts_with("handoff: on (take over on play: yes)"),
        "{text}"
    );
    assert!(text.contains("owner: other"), "{text}");
    assert!(text.contains("last event: yielded"), "{text}");
}

fn snapshot_with(status: &str, key: &str) -> Snapshot {
    let mut snapshot = Snapshot::initial("AC:DE:48:00:11:22");
    snapshot.device.connected = true;
    snapshot.device.aap_link = true;
    snapshot
        .settings_status
        .insert(key.to_owned(), status.to_owned());
    snapshot
}

#[test]
fn a_setting_write_or_a_rename_waits_for_a_readback() {
    let parsed =
        request_from_command(setting("press_speed", "\"slower\""))
            .unwrap();
    assert_eq!(parsed.verify_key.as_deref(), Some("press_speed"));
    assert!(parsed.notice.is_none());

    let renamed = request_from_command(rename("Pods")).unwrap();
    assert_eq!(renamed.verify_key.as_deref(), Some("name"));
    assert!(renamed.notice.is_none());

    for command in [
        Command::Noise(NoiseControlMode::Anc),
        Command::Status { json: false },
    ] {
        assert!(request_from_command(command)
            .unwrap()
            .verify_key
            .is_none());
    }
}

#[test]
fn a_verifying_snapshot_is_never_an_answer() {
    assert_eq!(
        outcome_for(&snapshot_with("verifying", "press_speed"), "press_speed"),
        None
    );
    // Another key settling says nothing about this one.
    let mut snapshot = snapshot_with("verifying", "press_speed");
    snapshot
        .settings_status
        .insert("microphone".to_owned(), "confirmed".to_owned());
    assert_eq!(outcome_for(&snapshot, "press_speed"), None);
    assert_eq!(outcome_for(&Snapshot::initial(""), "press_speed"), None);
}

#[test]
fn each_status_prints_one_line_with_the_right_exit_code() {
    let confirmed = outcome_for(&snapshot_with("confirmed", "press_speed"), "press_speed");
    assert_eq!(
        confirmed.unwrap().line(),
        ("confirmed by AirPods".into(), 0)
    );

    let mut mismatch = snapshot_with("mismatch", "press_speed");
    mismatch.settings.press_speed = Some(PressSpeed::Default);
    assert_eq!(
        outcome_for(&mismatch, "press_speed").unwrap().line(),
        ("AirPods kept default".to_owned(), 1)
    );

    let unreported = outcome_for(&snapshot_with("unreported", "microphone"), "microphone");
    assert_eq!(
        unreported.unwrap().line(),
        (
            "applied; AirPods 4 (ANC) never reports this setting back".to_owned(),
            0
        )
    );

    let mut unverified = snapshot_with("unverified", "press_speed");
    unverified.device.aap_link = false;
    let (line, code) = outcome_for(&unverified, "press_speed").unwrap().line();
    assert_eq!(code, 1);
    assert_eq!(
        line,
        "sent but not verified: the AAP link could not be reopened"
    );

    unverified.device.connected = false;
    let (line, _) = outcome_for(&unverified, "press_speed").unwrap().line();
    assert_eq!(line, "sent but not verified: the AirPods disconnected");
}

#[test]
fn a_daemon_without_the_readback_contract_is_not_an_error() {
    let mut old = snapshot_with("confirmed", "press_speed");
    old.settings_api = 1;
    assert_eq!(
        outcome_for(&old, "press_speed").unwrap().line(),
        (
            "sent; waiting for AirPods to report the setting".to_owned(),
            0
        )
    );
}

#[test]
fn a_boolean_or_list_value_is_still_one_readable_line() {
    let mut snapshot = snapshot_with("mismatch", "personalized_volume");
    snapshot.settings.personalized_volume = Some(false);
    assert_eq!(
        outcome_for(&snapshot, "personalized_volume")
            .unwrap()
            .line(),
        ("AirPods kept false".to_owned(), 1)
    );

    let mut absent = snapshot_with("mismatch", "microphone");
    absent.settings.microphone = None;
    assert_eq!(
        outcome_for(&absent, "microphone").unwrap().line(),
        ("AirPods kept a different value".to_owned(), 1)
    );
}
