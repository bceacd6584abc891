use aurisd::audio_route::{
    available_of, drain_state, parse_card, pick_profile, plan, Applied, CardInfo, Drain, DriveStep,
    Outstanding, RouteError, RouteMode, Router, A2DP, DRAIN_TIMEOUT, OFF,
};
use aurisd::clock::{Duration, MILLISECOND, SECOND};

fn secs(n: u64) -> Duration {
    Duration::from(n) * SECOND
}

fn ms(n: u64) -> Duration {
    Duration::from(n) * MILLISECOND
}

const ADDR: &str = "BC:80:4E:01:02:03";
/// No card anywhere has this address, so a router test can never reach a
/// real `pw-cli set-param`: every attempt stops at `NoCard`.
const NOWHERE: &str = "AA:BB:CC:DD:EE:FF";

/// A trimmed `pw-dump`: one node to ignore, one foreign card, then the
/// AirPods' card with the profiles this machine offers.
const DUMP: &str = r#"[
  { "id": 61, "type": "PipeWire:Interface:Node",
    "info": { "props": { "device.name": "bluez_card.BC_80_4E_01_02_03" } } },
  { "id": 44, "type": "PipeWire:Interface:Device",
    "info": { "props": { "device.name": "alsa_card.pci-0000_c1_00.6" },
              "params": { "Profile": [ { "index": 2, "name": "output:analog-stereo" } ],
                          "EnumProfile": [ { "index": 0, "name": "off", "available": "yes" } ] } } },
  { "id": 9, "type": "PipeWire:Interface:Device" },
  { "id": 143, "type": "PipeWire:Interface:Device",
    "info": { "props": { "device.name": "bluez_card.BC_80_4E_01_02_03" },
              "params": {
                "Profile": [ { "index": 131076, "name": "a2dp-sink", "available": "yes", "save": false } ],
                "EnumProfile": [
                  { "index": 0, "name": "off", "available": "yes" },
                  { "index": 131073, "name": "a2dp-sink-sbc", "available": "yes" },
                  { "index": 131074, "name": "a2dp-sink-sbc_xq", "available": true },
                  { "index": 131076, "name": "a2dp-sink", "available": "yes" },
                  { "name": "broken-no-index" },
                  { "index": 196864, "name": "headset-head-unit-cvsd", "available": "yes" },
                  { "index": 196865, "name": "headset-head-unit", "available": "yes" }
                ] } } }
]"#;

fn card() -> CardInfo {
    parse_card(DUMP, ADDR).expect("the AirPods card is in the fixture")
}

#[test]
fn the_bluez_card_is_found_by_address_and_nodes_are_ignored() {
    let card = card();
    assert_eq!(card.id, 143);
    assert_eq!(card.current, 131076);
    // The entry without an index is dropped, the rest are kept in order.
    assert_eq!(
        card.profiles.iter().map(|p| p.index).collect::<Vec<_>>(),
        [0, 131073, 131074, 131076, 196864, 196865]
    );
    assert!(card.profiles.iter().all(|p| p.available));
    assert_eq!(card.name_of(0), "off");
}

#[test]
fn an_address_with_no_card_and_a_broken_dump_are_both_none() {
    assert_eq!(parse_card(DUMP, "AA:BB:CC:DD:EE:FF"), None);
    assert_eq!(parse_card("not json", ADDR), None);
    assert_eq!(parse_card("{}", ADDR), None);
    assert_eq!(parse_card("[]", ADDR), None);
    // Underscores and lower case name the same card.
    assert!(parse_card(DUMP, "bc_80_4e_01_02_03").is_some());
}

#[test]
fn yielding_picks_off_whatever_is_remembered() {
    assert_eq!(pick_profile(&card(), RouteMode::Yielded, None), Some(0));
    assert_eq!(
        pick_profile(&card(), RouteMode::Yielded, Some(131073)),
        Some(0)
    );
    let mut no_off = card();
    no_off.profiles.retain(|p| p.name != OFF);
    assert_eq!(pick_profile(&no_off, RouteMode::Yielded, None), None);
}

#[test]
fn owning_keeps_the_a2dp_profile_already_in_use() {
    // Already on a codec-specific A2DP profile: no reconfigure.
    let mut on_sbc = card();
    on_sbc.current = 131073;
    assert_eq!(pick_profile(&on_sbc, RouteMode::Own, None), Some(131073));
    assert_eq!(
        pick_profile(&on_sbc, RouteMode::Own, Some(131076)),
        Some(131073)
    );
}

#[test]
fn owning_from_off_restores_the_remembered_profile_then_falls_back() {
    let mut off = card();
    off.current = 0;
    assert_eq!(
        pick_profile(&off, RouteMode::Own, Some(131074)),
        Some(131074)
    );
    // Remembered but gone, or unavailable: the exact a2dp-sink profile.
    assert_eq!(pick_profile(&off, RouteMode::Own, Some(999)), Some(131076));
    let mut stale = off.clone();
    stale.profiles[1].available = false;
    assert_eq!(
        pick_profile(&stale, RouteMode::Own, Some(131073)),
        Some(131076)
    );
    assert_eq!(pick_profile(&off, RouteMode::Own, None), Some(131076));
    // A headset profile is never chosen, even as the last resort.
    let mut headset_only = off.clone();
    headset_only.profiles.retain(|p| !p.name.starts_with(A2DP));
    assert_eq!(
        pick_profile(&headset_only, RouteMode::Own, Some(131076)),
        None
    );
    // No plain a2dp-sink: the first available codec profile.
    let mut codecs = off.clone();
    codecs.profiles.retain(|p| p.name != A2DP);
    assert_eq!(pick_profile(&codecs, RouteMode::Own, None), Some(131073));
    codecs.profiles[1].available = false;
    assert_eq!(pick_profile(&codecs, RouteMode::Own, None), Some(131074));
}

#[test]
fn available_reads_both_spellings() {
    assert!(available_of(None));
    assert!(available_of(Some("true")));
    assert!(!available_of(Some("false")));
    assert!(available_of(Some("\"yes\"")));
    assert!(!available_of(Some("\"no\"")));
    assert!(available_of(Some("\"unknown\"")));
}

#[test]
fn the_drain_stops_waiting_when_playback_stops_or_the_window_ends() {
    assert_eq!(drain_state(false, 0), Drain::Done);
    // Still playing, window open: wait.
    assert_eq!(drain_state(true, 0), Drain::Waiting);
    assert_eq!(
        drain_state(true, DRAIN_TIMEOUT - ms(1)),
        Drain::Waiting
    );
    // A player that ignores the pause never blocks the yield.
    assert_eq!(drain_state(true, DRAIN_TIMEOUT), Drain::Expired);
    assert_eq!(drain_state(true, secs(60)), Drain::Expired);
    // A stop always wins, however long it took.
    assert_eq!(drain_state(false, secs(60)), Drain::Done);
}

#[test]
fn each_set_starts_one_generation_and_cancel_forgets_everything() {
    let mut router = Router::new();
    let mut outstanding = Outstanding::new();
    assert_eq!(router.mode(), None);
    assert!(router.set(RouteMode::Yielded));
    assert_eq!(router.mode(), Some(RouteMode::Yielded));
    assert_eq!(router.generation(), 1);
    // A repeat of an unsettled mode starts a new task.
    assert!(router.set(RouteMode::Yielded));
    assert_eq!(router.generation(), 2);
    assert!(router.set(RouteMode::Own));
    assert_eq!(router.generation(), 3);
    assert_eq!(router.mode(), Some(RouteMode::Own));
    router.cancel(&mut outstanding);
    assert_eq!(router.mode(), None);
    assert_eq!(router.remembered_a2dp(), None);
    assert_eq!(router.generation(), 3);
}

#[test]
fn a_yield_gives_up_waiting_for_a_card_that_never_appears() {
    let mut router = Router::new();
    let mut outstanding = Outstanding::new();
    router.set(RouteMode::Yielded);
    // No such card, so the switch cannot settle: it is retried while the
    // window lasts, then given up.
    let none: Result<Applied, RouteError> = Err(plan(DUMP.as_bytes(), NOWHERE, RouteMode::Yielded, None).unwrap_err());
    assert_eq!(none, Err(RouteError::NoCard));
    assert_eq!(
        router.tried(&mut outstanding, NOWHERE, RouteMode::Yielded, &none, false),
        DriveStep::Retry
    );
    assert!(!router.is_settled());
    assert_eq!(
        router.tried(&mut outstanding, NOWHERE, RouteMode::Yielded, &none, true),
        DriveStep::GiveUp
    );
    assert!(!router.is_settled());
    let settled = Ok(Applied::NoChange);
    assert_eq!(
        router.tried(&mut outstanding, NOWHERE, RouteMode::Yielded, &settled, false),
        DriveStep::Settled
    );
    assert!(router.is_settled());
    // A cancelled switch is not settled.
    router.cancel(&mut outstanding);
    assert!(!router.is_settled());
}

#[test]
fn a_settled_mode_is_not_re_applied() {
    let mut router = Router::new();
    let mut outstanding = Outstanding::new();
    router.set(RouteMode::Own);
    router.tried(&mut outstanding, NOWHERE, RouteMode::Own, &Ok(Applied::NoChange), false);
    assert!(!router.set(RouteMode::Own));
    assert_eq!(router.generation(), 1);
    assert!(router.set(RouteMode::Yielded));
    assert_eq!(router.generation(), 2);
}
