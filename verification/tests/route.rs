//! Card profiles: plans, faults and what is restored.

use aurisd::audio_route::{
    available_of, card_name, pick_profile, plan, plan_card, tool_error, word_is_available, Applied,
    CardInfo, DriveStep, Outstanding, Plan, ProfileInfo, RouteError, RouteMode, Router, ToolRun,
};

const ADDR: &str = "BC:80:4E:01:02:03";

fn profile(index: u32, name: &str) -> ProfileInfo {
    ProfileInfo {
        index,
        name: name.to_owned(),
        available: true,
    }
}

fn card(current: u32) -> CardInfo {
    CardInfo {
        id: 143,
        current,
        profiles: vec![
            profile(0, "off"),
            profile(7, "a2dp-sink-sbc"),
            profile(8, "a2dp-sink"),
            profile(9, "headset-head-unit"),
        ],
    }
}

#[test]
fn a_card_is_named_after_its_upper_case_address() {
    assert_eq!(card_name(ADDR), "bluez_card.BC_80_4E_01_02_03");
    assert_eq!(card_name("bc-80-4e-01-02-03"), "bluez_card.BC_80_4E_01_02_03");
    assert_eq!(card_name("straße"), "bluez_card.STRASSE");
}

#[test]
fn a_switch_names_the_profile_by_its_index() {
    let Ok(Plan::Switch { args, applied }) = plan_card(&card(7), RouteMode::Yielded, None) else {
        panic!("no switch");
    };
    assert_eq!(args, ["set-param", "143", "Profile", "{ index: 0 }"]);
    assert_eq!(
        applied,
        Applied::Changed {
            from: 7,
            to: 0,
            from_name: "a2dp-sink-sbc".into(),
            to_name: "off".into(),
            remembered_a2dp: Some(7),
        }
    );
    assert_eq!(plan_card(&card(0), RouteMode::Yielded, Some(7)), Ok(Plan::Keep));
    assert_eq!(plan_card(&card(8), RouteMode::Own, Some(7)), Ok(Plan::Keep));
}

#[test]
fn a_take_over_goes_back_to_the_profile_a_yield_left() {
    let Ok(Plan::Switch { applied: Applied::Changed { to, remembered_a2dp, .. }, .. }) =
        plan_card(&card(7), RouteMode::Yielded, None)
    else {
        panic!("no switch");
    };
    assert_eq!(pick_profile(&card(to), RouteMode::Own, remembered_a2dp), Some(7));
}

#[test]
fn a_headset_profile_is_not_remembered() {
    let Ok(Plan::Switch { applied: Applied::Changed { remembered_a2dp, .. }, .. }) =
        plan_card(&card(9), RouteMode::Yielded, None)
    else {
        panic!("no switch");
    };
    assert_eq!(remembered_a2dp, None);
}

#[test]
fn each_way_to_fail_has_its_own_words() {
    let mut bare = card(9);
    bare.profiles = vec![profile(9, "headset-head-unit")];
    assert_eq!(
        plan_card(&bare, RouteMode::Own, None),
        Err(RouteError::Failed("the bluez card offers no a2dp-sink profile".into()))
    );
    assert_eq!(
        plan_card(&bare, RouteMode::Yielded, None),
        Err(RouteError::Failed("the bluez card offers no off profile".into()))
    );
    assert_eq!(plan(b"[]", ADDR, RouteMode::Own, None), Err(RouteError::NoCard));
    assert_eq!(plan(b"\xff", ADDR, RouteMode::Own, None), Err(RouteError::NoCard));
    assert_eq!(
        RouteError::NoCard.to_string(),
        "no PipeWire bluez card for the AirPods"
    );
    assert_eq!(
        RouteError::ToolMissing.to_string(),
        "pw-dump or pw-cli is not installed"
    );
    assert_eq!(RouteError::Failed("x".into()).to_string(), "x");
}

#[test]
fn a_tool_that_gave_no_output_says_why() {
    let exited = |success: bool| ToolRun::Exited {
        success,
        status: "exit status: 1".into(),
        stderr: b"\n can\xfft connect \n".to_vec(),
    };
    assert_eq!(tool_error("pw-dump", &exited(true)), None);
    assert_eq!(
        tool_error("pw-dump", &exited(false)),
        Some(RouteError::Failed("pw-dump exited exit status: 1: can\u{fffd}t connect".into()))
    );
    assert_eq!(
        tool_error("pw-cli", &ToolRun::TimedOut),
        Some(RouteError::Failed("pw-cli timed out".into()))
    );
    assert_eq!(
        tool_error("pw-cli", &ToolRun::NotStarted("denied".into())),
        Some(RouteError::Failed("pw-cli failed to start: denied".into()))
    );
    assert_eq!(tool_error("pw-cli", &ToolRun::Missing), Some(RouteError::ToolMissing));
}

#[test]
fn only_an_explicit_no_makes_a_profile_unavailable() {
    assert!(!word_is_available("No"));
    assert!(word_is_available("none"));
    assert!(available_of(Some("3")));
    assert!(available_of(Some("\"\"")));
}

#[test]
fn what_a_yield_switched_off_is_restored_on_exit() {
    let mut router = Router::new();
    let mut outstanding = Outstanding::new();
    assert_eq!(outstanding.to_restore(), None);
    router.set(RouteMode::Yielded);
    let changed = Ok(Applied::Changed {
        from: 7,
        to: 0,
        from_name: "a2dp-sink-sbc".into(),
        to_name: "off".into(),
        remembered_a2dp: Some(7),
    });
    let step = router.tried(&mut outstanding, ADDR, RouteMode::Yielded, &changed, false);
    assert_eq!(step, DriveStep::Settled);
    assert_eq!(outstanding.to_restore(), Some((ADDR.to_owned(), Some(7))));
    assert_eq!(router.remembered_a2dp(), Some(7));
    router.set(RouteMode::Own);
    router.tried(&mut outstanding, ADDR, RouteMode::Own, &Ok(Applied::NoChange), false);
    assert_eq!(outstanding.to_restore(), None);
    assert_eq!(router.remembered_a2dp(), Some(7));
    let missing = Err(RouteError::ToolMissing);
    assert_eq!(
        router.tried(&mut outstanding, ADDR, RouteMode::Own, &missing, false),
        DriveStep::GiveUp
    );
}
