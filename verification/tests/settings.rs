//! Settings, and the names and values they are asked for by.

use aurisd::settings::{
    has_control, read_json, validate_name, CallControls, HoldDuration, JsonValue, MicrophoneMode,
    PressSpeed, SettingCommand,
};
use aurisd::state::{NoiseControlMode, SettingsStatus};
use aurisd::text::chars_of;

fn named(key: &str, text: &str) -> Option<SettingCommand> {
    SettingCommand::from_value(key, &read_json(text))
}

#[test]
fn json_values_are_told_apart() {
    assert_eq!(read_json("\"a\\u00e9\\n\""), JsonValue::Text("aé\n".into()));
    assert_eq!(read_json(" true "), JsonValue::Flag(true));
    assert_eq!(read_json("false"), JsonValue::Flag(false));
    assert_eq!(
        read_json("[\"anc\", 3, null, \"off\"]"),
        JsonValue::List(vec![Some("anc".into()), None, None, Some("off".into())])
    );
    assert_eq!(read_json("[]"), JsonValue::List(Vec::new()));
    for other in ["", "3", "null", "{\"a\":1}", "tru", "\"open"] {
        assert_eq!(read_json(other), JsonValue::Other, "{other:?}");
    }
}

#[test]
fn every_setting_is_named_by_its_key_and_value() {
    let all = [
        (SettingCommand::Microphone(MicrophoneMode::Auto), "\"auto\""),
        (SettingCommand::Microphone(MicrophoneMode::Right), "\"right\""),
        (SettingCommand::Microphone(MicrophoneMode::Left), "\"left\""),
        (SettingCommand::PressSpeed(PressSpeed::Default), "\"default\""),
        (SettingCommand::PressSpeed(PressSpeed::Slower), "\"slower\""),
        (SettingCommand::PressSpeed(PressSpeed::Slowest), "\"slowest\""),
        (SettingCommand::HoldDuration(HoldDuration::Default), "\"default\""),
        (SettingCommand::HoldDuration(HoldDuration::Shorter), "\"shorter\""),
        (SettingCommand::HoldDuration(HoldDuration::Shortest), "\"shortest\""),
        (
            SettingCommand::ListeningModeCycle(vec![
                NoiseControlMode::Off,
                NoiseControlMode::Anc,
                NoiseControlMode::Transparency,
                NoiseControlMode::Adaptive,
            ]),
            "[\"off\",\"anc\",\"transparency\",\"adaptive\"]",
        ),
        (
            SettingCommand::CallControls(CallControls::MuteOnceHangupTwice),
            "\"mute_once_hangup_twice\"",
        ),
        (
            SettingCommand::CallControls(CallControls::HangupOnceMuteTwice),
            "\"hangup_once_mute_twice\"",
        ),
        (SettingCommand::PersonalizedVolume(true), "true"),
        (SettingCommand::PersonalizedVolume(false), "false"),
    ];
    for (setting, text) in all {
        assert_eq!(named(setting.key(), text), Some(setting), "{text}");
    }
}

#[test]
fn a_value_of_the_wrong_kind_names_nothing() {
    assert_eq!(named("microphone", "true"), None);
    assert_eq!(named("microphone", "\"Auto\""), None);
    assert_eq!(named("listening_mode_cycle", "[\"anc\",1]"), None);
    assert_eq!(named("listening_mode_cycle", "\"anc\""), None);
    assert_eq!(named("personalized_volume", "1"), None);
    assert_eq!(named("volume", "true"), None);
}

#[test]
fn a_cycle_needs_two_different_modes() {
    let cycle = |modes: &[NoiseControlMode]| SettingCommand::ListeningModeCycle(modes.to_vec());
    assert!(cycle(&[NoiseControlMode::Anc, NoiseControlMode::Transparency]).validate().is_ok());
    assert!(cycle(&[NoiseControlMode::Anc]).validate().is_err());
    assert!(cycle(&[NoiseControlMode::Anc, NoiseControlMode::Anc]).validate().is_err());
    assert!(cycle(&[]).validate().is_err());
    assert!(SettingCommand::PersonalizedVolume(true).validate().is_ok());
}

#[test]
fn a_name_is_measured_in_bytes() {
    assert_eq!(validate_name("AirPods"), Ok(()));
    assert_eq!(validate_name(&"é".repeat(127)), Ok(()));
    assert_eq!(validate_name(&"a".repeat(255)), Ok(()));
    assert_eq!(
        validate_name(&"é".repeat(128)),
        Err("the name must not be longer than 255 bytes of UTF-8".to_owned())
    );
    assert_eq!(validate_name(" \t"), Err("the name must not be blank".to_owned()));
    assert_eq!(
        validate_name("a\u{7f}b"),
        Err("the name must not contain control characters".to_owned())
    );
    assert!(has_control(&chars_of("a\u{85}")));
    assert!(!has_control(&chars_of("a b")));
}

#[test]
fn the_latest_status_of_a_setting_counts() {
    let mut status = SettingsStatus::new();
    assert_eq!(status.get("microphone"), None);
    status.insert("microphone".into(), "verifying".into());
    status.insert("name".into(), "verifying".into());
    status.insert("microphone".into(), "confirmed".into());
    assert_eq!(status.get("microphone"), Some("confirmed"));
    assert_eq!(status.get("name"), Some("verifying"));
}
