use aurisd::cache::{cache_path, load, same_readings};
use aurisd::state::{Battery, Cell};

#[test]
fn round_trip_comes_back_absent_and_stale() {
    let b = Battery {
        stale: false,
        left: Cell {
            level: Some(80),
            charging: true,
            last_known_charging: Some(true),
            present: true,
            last_seen: Some("t1".into()),
            ..Cell::default()
        },
        right: Cell::default(),
        case: Cell {
            level: Some(62),
            charging: false,
            last_known_charging: Some(false),
            present: true,
            last_seen: Some("t2".into()),
            ..Cell::default()
        },
    };
    let back = load("AC:DE:48:00:11:22", b.clone(), "AC:DE:48:00:11:22").unwrap();
    assert!(load("AC:DE:48:00:11:22", b.clone(), "AC:DE:48:00:11:23").is_none());
    assert!(back.stale);
    assert_eq!(back.case.level, Some(62));
    assert_eq!(back.case.last_seen.as_deref(), Some("t2"));
    assert!(!back.left.present && !back.left.charging);
    assert_eq!(back.left.last_known_charging, Some(true));
    assert_eq!(back.case.last_known_charging, Some(false));
    assert!(same_readings(&b, &back));
}

#[test]
fn unbound_legacy_cache_is_not_attributed_to_a_device() {
    assert!(load("", Battery::default(), "AC:DE:48:00:11:22").is_none());
    assert!(load("", Battery::default(), "").is_none());
}

#[test]
fn systemd_names_the_cache_directory_first() {
    assert_eq!(
        cache_path(Some("/var/cache/aurisd"), Some("/home/u/.cache")).as_deref(),
        Some("/var/cache/aurisd/battery.json")
    );
    assert_eq!(
        cache_path(None, Some("/home/u/.cache")).as_deref(),
        Some("/home/u/.cache/aurisd/battery.json")
    );
    assert_eq!(cache_path(None, None), None);
}

#[test]
fn cache_equality_includes_history_but_not_live_presence() {
    let mut original = Battery::default();
    original.left.level = Some(80);
    original.left.last_seen = Some("t1".into());
    original.left.last_known_charging = Some(true);

    let mut only_live_state_changed = original.clone();
    only_live_state_changed.left.present = true;
    only_live_state_changed.left.charging = true;
    only_live_state_changed.stale = false;
    assert!(same_readings(&original, &only_live_state_changed));

    let mut history_changed = original.clone();
    history_changed.left.last_known_charging = Some(false);
    assert!(!same_readings(&original, &history_changed));
}
