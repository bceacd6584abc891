use aurisd::config::{
    config_path, handoff_edited, missing_parent, runtime_dir, socket_path, state_path,
    AutoconnectConfig, Config, EarConfig, EditError, HandoffConfig, PrimaryBud,
};

#[test]
fn override_wins() {
    let p = runtime_dir(Some("/tmp/whatever"), Some("/run/user/7"), 7);
    assert_eq!(p, "/tmp/whatever");
    assert_eq!(state_path(&p), "/tmp/whatever/state.json");
    assert_eq!(socket_path(&p), "/tmp/whatever/ctl.sock");
}

#[test]
fn ensure_runtime_dir_rejects_a_missing_parent() {
    let e = missing_parent("/nonexistent-aurisd-test", "/nonexistent-aurisd-test/aurisd");
    assert!(e.contains("/nonexistent-aurisd-test"), "{e}");
}

#[test]
fn the_runtime_directory_never_moves_to_tmp() {
    assert_eq!(runtime_dir(None, Some("/run/user/7"), 7), "/run/user/7/aurisd");
    assert_eq!(runtime_dir(None, Some(""), 1000), "/run/user/1000/aurisd");
    assert_eq!(runtime_dir(None, None, 0), "/run/user/0/aurisd");
}

#[test]
fn the_config_file_is_below_the_config_home() {
    assert_eq!(
        config_path(Some("/cfg"), Some("/home/u")).as_deref(),
        Some("/cfg/aurisd/config.toml")
    );
    assert_eq!(
        config_path(Some(""), Some("/home/u")).as_deref(),
        Some("/home/u/.config/aurisd/config.toml")
    );
    assert_eq!(config_path(None, Some("")), None);
    assert_eq!(config_path(None, None), None);
}

#[test]
fn every_section_has_its_defaults() {
    let cfg = Config::default();
    assert!(cfg.device.is_none());
    assert_eq!(cfg.primary_bud, PrimaryBud::Auto);
    assert!(!cfg.ble.enabled);
    assert!(cfg.autoconnect.enabled);
    assert_eq!(cfg.autoconnect.min_rssi, -90);
    assert_eq!(cfg.autoconnect.settle_seconds, 3);
    assert_eq!(cfg.autoconnect.absence_seconds, 15);
    assert_eq!(cfg.autoconnect, AutoconnectConfig::default());
    assert_eq!(cfg.ear, EarConfig::default());
    assert!(cfg.ear.auto_pause);
    assert!(cfg.ear.auto_resume);
    assert!(cfg.ear.pause_on_one_of_two);
}

#[test]
fn handoff_defaults_off_with_take_over_on_play() {
    let cfg = HandoffConfig::default();
    assert!(!cfg.enabled);
    assert!(cfg.take_over_on_play);
    assert!(cfg.rejoin_after_eviction);
    assert_eq!(cfg.bt_name(), "Mac");
    let named = |name: &str| HandoffConfig {
        bt_name: Some(name.to_owned()),
        ..HandoffConfig::default()
    };
    assert_eq!(named("Linux").bt_name(), "Linux");
    assert_eq!(named(&"x".repeat(32)).bt_name(), "x".repeat(32));
    assert_eq!(named(&"x".repeat(33)).bt_name(), "Mac");
    assert_eq!(named(" \t").bt_name(), "Mac");
    assert_eq!(named("a\nb").bt_name(), "Mac");
    assert_eq!(named(" ").bt_name(), " ");
    assert_eq!(named("").bt_name(), "Mac");
    assert_eq!(named(&"\u{e9}".repeat(16)).bt_name(), "\u{e9}".repeat(16));
    assert_eq!(named(&"\u{e9}".repeat(17)).bt_name(), "Mac");
}

#[test]
fn set_handoff_enabled_preserves_other_keys_and_comments() {
    let text = "# pinned\nprimary_bud = \"left\"\n\n[handoff]\ntake_over_on_play = false\n";
    let on = handoff_edited(text, true).unwrap();
    assert!(on.contains("# pinned"), "{on}");
    let doc: toml::Table = toml::from_str(&on).unwrap();
    assert_eq!(doc["primary_bud"].as_str(), Some("left"));
    assert_eq!(doc["handoff"]["enabled"].as_bool(), Some(true));
    assert_eq!(doc["handoff"]["take_over_on_play"].as_bool(), Some(false));
    let off = handoff_edited(&on, false).unwrap();
    let doc: toml::Table = toml::from_str(&off).unwrap();
    assert_eq!(doc["handoff"]["enabled"].as_bool(), Some(false));
}

#[test]
fn set_handoff_enabled_creates_a_missing_file_and_refuses_a_broken_one() {
    let made = handoff_edited("", true).unwrap();
    let doc: toml::Table = toml::from_str(&made).unwrap();
    assert_eq!(doc["handoff"]["enabled"].as_bool(), Some(true));
    assert_eq!(handoff_edited("handoff = 3\n", true), Err(EditError::NotATable));
    assert!(matches!(handoff_edited("handoff = ", true), Err(EditError::NotToml(_))));
}
