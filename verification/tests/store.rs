//! The published state and what changes it.

use aurisd::aap::codec::{BatteryComponent, BatteryEntry, Metadata};
use aurisd::address::Address;
use aurisd::config::PrimaryBud;
use aurisd::settings::{CallControls, HoldDuration, MicrophoneMode, PressSpeed, SettingCommand};
use aurisd::state::{
    Ear, EarState, Handoff, LinkReason, LinkStatus, NoiseControl, NoiseControlMode, Snapshot,
    Source,
};
use aurisd::store::{LinkActivity, Store, Update};

const ADDR: &str = "BC:80:4E:01:02:03";
const STAMP: &str = "2026-07-11T12:00:00+02:00";

fn store() -> Store {
    Store::new(Snapshot::initial(ADDR), PrimaryBud::Auto)
}

fn entry(component: BatteryComponent, level: Option<u8>, charging: bool) -> BatteryEntry {
    BatteryEntry {
        component,
        level,
        charging,
        present: true,
    }
}

fn advert(address: &str, entries: Vec<BatteryEntry>) -> Update {
    Update::BleBattery {
        address: address.to_owned(),
        entries,
    }
}

fn status(store: &Store, key: &str) -> Option<String> {
    store.snapshot().settings_status.get(key).map(str::to_owned)
}

#[test]
fn a_level_is_current_until_the_link_is_lost_and_known_after() {
    let mut s = store();
    assert!(s.snapshot().battery.stale);
    s.apply(Update::AapLink(true), STAMP);
    assert_eq!(s.snapshot().daemon.source, Source::Aap);
    let heard = vec![
        entry(BatteryComponent::Left, Some(80), true),
        entry(BatteryComponent::Case, None, false),
        entry(BatteryComponent::Other(9), Some(5), false),
    ];
    s.apply(Update::Battery(heard), STAMP);
    let battery = &s.snapshot().battery;
    assert!(!battery.stale && battery.left.fresh && battery.left.present && battery.left.charging);
    assert_eq!(battery.left.last_seen.as_deref(), Some(STAMP));
    assert!(battery.case.present && !battery.case.fresh);
    assert_eq!(battery.right.level, None);
    s.apply(Update::AapLink(false), STAMP);
    let battery = &s.snapshot().battery;
    assert!(battery.stale && !battery.left.fresh && !battery.left.present && !battery.left.charging);
    assert_eq!(battery.left.level, Some(80));
    assert_eq!(battery.left.last_known_charging, Some(true));
    assert_eq!(s.snapshot().daemon.source, Source::Nowhere);
}

#[test]
fn an_advert_counts_for_its_own_accessory_until_it_is_too_old() {
    let mut s = store();
    let case = vec![entry(BatteryComponent::Case, Some(30), false)];
    s.apply(advert("00:00:00:00:00:00", case.clone()), STAMP);
    assert_eq!(s.snapshot().battery.case.level, None);
    s.apply(advert(ADDR, case), STAMP);
    assert_eq!(s.snapshot().daemon.source, Source::Ble);
    let before = |at: &str| Update::ExpireBle {
        before: at.to_owned(),
    };
    for kept in ["2026-07-11T10:00:00Z", "2026-07-11T09:59:59Z", "no time"] {
        s.apply(before(kept), STAMP);
        assert!(s.snapshot().battery.case.fresh, "{kept}");
    }
    s.apply(before("2026-07-11T10:00:01Z"), STAMP);
    assert!(!s.snapshot().battery.case.fresh && s.snapshot().battery.stale);
    assert_eq!(s.snapshot().battery.case.level, Some(30));
    assert_eq!(s.snapshot().daemon.source, Source::Nowhere);
}

#[test]
fn a_live_link_outranks_a_reconnect_sequence() {
    let mut s = store();
    let activity = LinkActivity {
        reason: LinkReason::TakenOver,
        attempt: 2,
        since: "2026-07-11T10:00:00Z".to_owned(),
    };
    s.apply(Update::Link(Some(activity)), STAMP);
    assert_eq!(s.snapshot().link.status, LinkStatus::Reconnecting);
    assert_eq!(s.snapshot().link.attempt, 2);
    s.apply(Update::AclConnected(true), STAMP);
    assert_eq!(s.snapshot().link.status, LinkStatus::Connected);
    assert_eq!(s.snapshot().link.since, None);
    s.apply(Update::AclConnected(false), STAMP);
    assert_eq!(s.snapshot().link.reason, Some(LinkReason::TakenOver));
    s.apply(Update::Link(None), STAMP);
    assert_eq!(s.snapshot().link.status, LinkStatus::Disconnected);
}

#[test]
fn a_repeated_link_report_is_no_change() {
    let mut s = store();
    for update in [Update::AclConnected(true), Update::AapLink(true), Update::AapLink(false)] {
        s.apply(update.clone(), STAMP);
        let once = s.snapshot().clone();
        s.apply(update, STAMP);
        assert_eq!(*s.snapshot(), once);
    }
}

#[test]
fn a_write_is_confirmed_kept_or_never_reported() {
    let asked = SettingCommand::PressSpeed(PressSpeed::Slower);
    let other = SettingCommand::PressSpeed(PressSpeed::Default);
    for (report, verdict) in [
        (Some(asked.clone()), "confirmed"),
        (Some(other), "mismatch"),
        (None, "unreported"),
    ] {
        let mut s = store();
        s.apply(Update::SettingRequested(asked.clone()), STAMP);
        assert_eq!(status(&s, "press_speed").as_deref(), Some("verifying"));
        assert_eq!(s.snapshot().settings_verify, "verifying");
        if let Some(setting) = report {
            s.apply(Update::Setting(setting), STAMP);
        }
        s.apply(Update::VerifyCompleted, STAMP);
        assert_eq!(status(&s, "press_speed").as_deref(), Some(verdict));
        assert_eq!(s.snapshot().settings_verify, "idle");
    }
}

#[test]
fn a_report_from_before_the_reopen_does_not_count() {
    let asked = SettingCommand::CallControls(CallControls::HangupOnceMuteTwice);
    let mut s = store();
    s.apply(Update::SettingRequested(asked.clone()), STAMP);
    s.apply(Update::Setting(asked), STAMP);
    s.apply(Update::VerifyReopening, STAMP);
    assert!(s.snapshot().verify_reopen);
    s.apply(Update::VerifyCompleted, STAMP);
    assert_eq!(status(&s, "call_controls").as_deref(), Some("unreported"));
    assert!(!s.snapshot().verify_reopen);
}

#[test]
fn a_cycle_is_confirmed_in_any_order() {
    let cycle = |modes: &[NoiseControlMode]| SettingCommand::ListeningModeCycle(modes.to_vec());
    let mut s = store();
    s.apply(
        Update::SettingRequested(cycle(&[NoiseControlMode::Adaptive, NoiseControlMode::Anc])),
        STAMP,
    );
    s.apply(
        Update::Setting(cycle(&[NoiseControlMode::Anc, NoiseControlMode::Adaptive])),
        STAMP,
    );
    s.apply(Update::VerifyCompleted, STAMP);
    assert_eq!(status(&s, "listening_mode_cycle").as_deref(), Some("confirmed"));
}

#[test]
fn a_name_is_read_back_from_the_metadata() {
    let named = |name: &str| {
        Update::Metadata(Metadata {
            name: Some(name.to_owned()),
            ..Metadata::default()
        })
    };
    let mut s = store();
    s.apply(Update::RenameRequested("Pods".into()), STAMP);
    s.apply(Update::RenameRequested("Buds".into()), STAMP);
    s.apply(Update::Metadata(Metadata::default()), STAMP);
    s.apply(named("Buds"), STAMP);
    s.apply(Update::VerifyCompleted, STAMP);
    assert_eq!(status(&s, "name").as_deref(), Some("confirmed"));
    assert_eq!(s.snapshot().device.name, "Buds");
    s.apply(Update::RenameRequested("Pods".into()), STAMP);
    s.apply(Update::VerifyFailed, STAMP);
    assert_eq!(status(&s, "name").as_deref(), Some("unverified"));
}

#[test]
fn every_report_is_shown_in_its_place() {
    let mut s = store();
    s.apply(
        Update::Identity {
            address: Address([1, 2, 3, 4, 5, 6]),
            name: Some("Buds".into()),
            model_id: Some("201B".into()),
        },
        STAMP,
    );
    for setting in [
        SettingCommand::Microphone(MicrophoneMode::Right),
        SettingCommand::HoldDuration(HoldDuration::Shorter),
        SettingCommand::PersonalizedVolume(true),
    ] {
        s.apply(Update::Setting(setting), STAMP);
    }
    s.apply(Update::NoiseControl(NoiseControlMode::Transparency), STAMP);
    s.apply(Update::ConversationalAwareness(true), STAMP);
    s.apply(Update::AdaptiveLevel(42), STAMP);
    let handoff = Handoff {
        enabled: true,
        ..Handoff::default()
    };
    s.apply(Update::Handoff(handoff.clone()), STAMP);
    let shown = s.snapshot();
    assert_eq!(shown.device.address, "01:02:03:04:05:06");
    assert_eq!(shown.device.name, "Buds");
    assert_eq!(shown.device.model.as_deref(), Some("AirPods 4 (ANC)"));
    assert_eq!(shown.settings.microphone, Some(MicrophoneMode::Right));
    assert_eq!(shown.settings.hold_duration, Some(HoldDuration::Shorter));
    assert_eq!(shown.settings.personalized_volume, Some(true));
    assert_eq!(shown.noise_control, NoiseControl::Transparency);
    assert_eq!(shown.conversational_awareness, Some(true));
    assert_eq!(shown.adaptive_level, Some(42));
    assert_eq!(shown.handoff, handoff);
    s.apply(
        Update::Identity {
            address: Address([1, 2, 3, 4, 5, 6]),
            name: None,
            model_id: None,
        },
        STAMP,
    );
    assert_eq!(s.snapshot().device.name, "Buds");
    assert_eq!(s.snapshot().device.model_id, "201B");
}

#[test]
fn the_primary_bud_is_the_one_that_works() {
    let report = Update::Ear {
        primary: EarState::In,
        secondary: EarState::Case,
    };
    let shown = |bud: PrimaryBud, left_charging: bool| {
        let mut s = Store::new(Snapshot::initial(ADDR), bud);
        let heard = vec![
            entry(BatteryComponent::Left, Some(50), left_charging),
            entry(BatteryComponent::Right, Some(50), false),
        ];
        s.apply(Update::Battery(heard), STAMP);
        s.apply(report.clone(), STAMP);
        s.snapshot().ear
    };
    let left = Ear {
        left: EarState::In,
        right: EarState::Case,
    };
    let right = Ear {
        left: EarState::Case,
        right: EarState::In,
    };
    assert_eq!(shown(PrimaryBud::Auto, false), left);
    assert_eq!(shown(PrimaryBud::Auto, true), right);
    assert_eq!(shown(PrimaryBud::Left, true), left);
    assert_eq!(shown(PrimaryBud::Right, false), right);
}
