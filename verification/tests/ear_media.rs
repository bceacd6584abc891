use aurisd::clock::{Duration, Instant, SECOND};
use aurisd::config::EarConfig;
use aurisd::ear_media::{
    decide, Action, Context, EarMediaState, Event, RESUME_WINDOW, SETTLE,
};
use aurisd::state::{Ear, EarState};

/// Where the clock stands when a test starts.
const T0: Instant = 3_600 * SECOND;

fn secs(n: u64) -> Duration {
    Duration::from(n) * SECOND
}


const SPOTIFY: &str = "org.mpris.MediaPlayer2.spotify";

fn ear(left: EarState, right: EarState) -> Ear {
    Ear { left, right }
}

fn both_in() -> Ear {
    ear(EarState::In, EarState::In)
}

fn one_out() -> Ear {
    ear(EarState::In, EarState::Out)
}

fn both_out() -> Ear {
    ear(EarState::Out, EarState::Out)
}

fn on() -> Context {
    Context {
        audio_on_airpods: true,
    }
}

fn resumed() -> Vec<Action> {
    vec![Action::ResumePlayer {
        player: Some(SPOTIFY.to_owned()),
    }]
}

fn play(s: &mut EarMediaState, playing: bool, at: Instant) {
    let actions = decide(
        s,
        Event::Playback {
            playing,
            player: playing.then(|| SPOTIFY.to_owned()),
        },
        on(),
        at,
    );
    assert!(actions.is_empty(), "playback never acts on its own");
}

/// Report `reading` and let it settle, returning what it decided.
fn report(s: &mut EarMediaState, reading: Ear, ctx: Context, at: Instant) -> Vec<Action> {
    let early = decide(s, Event::Ear(reading), ctx, at);
    assert!(early.is_empty(), "nothing acts before the settle time");
    decide(s, Event::Tick, ctx, at + SETTLE)
}

/// Playing, both buds in and settled, at `t0`.
fn listening(t0: Instant) -> EarMediaState {
    let mut s = EarMediaState::new(EarConfig::default());
    play(&mut s, true, t0);
    assert!(report(&mut s, both_in(), on(), t0).is_empty(), "baseline");
    s
}

#[test]
fn removing_one_of_two_buds_pauses_and_putting_it_back_resumes() {
    let t0 = T0;
    let mut s = listening(t0);
    let out = t0 + secs(10);
    assert_eq!(
        report(&mut s, one_out(), on(), out),
        [Action::PauseLocalPlayers]
    );
    assert!(s.resume_pending());
    // The pause lands as a reading of our own making.
    play(&mut s, false, out + SETTLE);
    assert!(
        s.resume_pending(),
        "our own pause does not cancel the resume"
    );
    let back = out + secs(20);
    assert_eq!(report(&mut s, both_in(), on(), back), resumed());
    assert!(!s.resume_pending());
}

#[test]
fn a_single_bud_listener_pauses_when_the_last_bud_leaves() {
    let t0 = T0;
    let mut s = EarMediaState::new(EarConfig::default());
    play(&mut s, true, t0);
    assert!(report(&mut s, one_out(), on(), t0).is_empty(), "baseline");
    let out = t0 + secs(5);
    assert_eq!(
        report(&mut s, both_out(), on(), out),
        [Action::PauseLocalPlayers]
    );
    play(&mut s, false, out + SETTLE);
    assert_eq!(
        report(&mut s, one_out(), on(), out + secs(9)),
        resumed()
    );
}

#[test]
fn the_narrow_rule_waits_for_the_last_bud() {
    let t0 = T0;
    let mut s = EarMediaState::new(EarConfig {
        pause_on_one_of_two: false,
        ..EarConfig::default()
    });
    play(&mut s, true, t0);
    assert!(report(&mut s, both_in(), on(), t0).is_empty());
    assert!(
        report(&mut s, one_out(), on(), t0 + secs(3)).is_empty(),
        "one of two is not a pause under the narrow rule"
    );
    assert_eq!(
        report(&mut s, both_out(), on(), t0 + secs(6)),
        [Action::PauseLocalPlayers]
    );
}

#[test]
fn a_bud_going_into_the_case_counts_as_leaving_the_ear() {
    let t0 = T0;
    let mut s = listening(t0);
    assert_eq!(
        report(
            &mut s,
            ear(EarState::Case, EarState::Case),
            on(),
            t0 + secs(2)
        ),
        [Action::PauseLocalPlayers]
    );
}

#[test]
fn a_flap_shorter_than_the_settle_time_is_ignored() {
    let t0 = T0;
    let mut s = listening(t0);
    let flap = t0 + secs(4);
    assert!(decide(&mut s, Event::Ear(one_out()), on(), flap).is_empty());
    assert!(decide(&mut s, Event::Tick, on(), flap + SETTLE / 2).is_empty());
    // Back in before it settled: nothing happened at all.
    assert!(decide(&mut s, Event::Ear(both_in()), on(), flap + SETTLE / 2).is_empty());
    assert!(decide(&mut s, Event::Tick, on(), flap + SETTLE * 3).is_empty());
    assert!(!s.resume_pending());
}

#[test]
fn a_reading_that_keeps_changing_restarts_the_settle_time() {
    let t0 = T0;
    let mut s = listening(t0);
    let a = t0 + secs(4);
    assert!(decide(&mut s, Event::Ear(one_out()), on(), a).is_empty());
    // A different reading before the first settled starts the clock again.
    assert!(decide(&mut s, Event::Ear(both_out()), on(), a + SETTLE / 2).is_empty());
    assert!(decide(&mut s, Event::Tick, on(), a + SETTLE).is_empty());
    assert_eq!(
        decide(&mut s, Event::Tick, on(), a + SETTLE / 2 + SETTLE),
        [Action::PauseLocalPlayers]
    );
}

#[test]
fn nothing_playing_means_nothing_to_pause_and_nothing_to_resume() {
    let t0 = T0;
    let mut s = EarMediaState::new(EarConfig::default());
    play(&mut s, false, t0);
    assert!(report(&mut s, both_in(), on(), t0).is_empty());
    assert!(report(&mut s, one_out(), on(), t0 + secs(3)).is_empty());
    assert!(!s.resume_pending());
    assert!(report(&mut s, both_in(), on(), t0 + secs(9)).is_empty());
}

#[test]
fn a_user_pause_during_the_window_cancels_the_resume() {
    let t0 = T0;
    let mut s = listening(t0);
    let out = t0 + secs(10);
    assert_eq!(
        report(&mut s, one_out(), on(), out),
        [Action::PauseLocalPlayers]
    );
    play(&mut s, false, out + SETTLE);
    // The user plays something themselves, then stops it.
    play(&mut s, true, out + secs(5));
    assert!(!s.resume_pending(), "the user is in control now");
    play(&mut s, false, out + secs(20));
    assert!(report(&mut s, both_in(), on(), out + secs(30)).is_empty());
}

#[test]
fn a_pause_the_user_made_first_is_not_ours_to_undo() {
    let t0 = T0;
    let mut s = listening(t0);
    let out = t0 + secs(10);
    assert_eq!(
        report(&mut s, one_out(), on(), out),
        [Action::PauseLocalPlayers]
    );
    play(&mut s, false, out + SETTLE);
    // A second player stops later: not our pause, and not a cancel of it.
    play(&mut s, true, out + secs(4));
    play(&mut s, false, out + secs(6));
    assert!(!s.resume_pending());
}

#[test]
fn a_resume_after_the_window_never_happens() {
    let t0 = T0;
    let mut s = listening(t0);
    assert_eq!(
        report(&mut s, one_out(), on(), t0),
        [Action::PauseLocalPlayers]
    );
    play(&mut s, false, t0 + SETTLE);
    let late = t0 + RESUME_WINDOW + secs(1);
    assert!(report(&mut s, both_in(), on(), late).is_empty());
    assert!(!s.resume_pending());
}

#[test]
fn a_link_that_comes_back_inside_the_window_still_resumes() {
    let t0 = T0;
    let mut s = listening(t0);
    assert_eq!(
        report(&mut s, one_out(), on(), t0),
        [Action::PauseLocalPlayers]
    );
    play(&mut s, false, t0 + SETTLE);
    assert!(decide(&mut s, Event::LinkClosed, on(), t0 + secs(5)).is_empty());
    assert!(s.resume_pending());
    let back = t0 + secs(30);
    // The first reading of the new link is a baseline again.
    assert!(report(&mut s, one_out(), on(), back).is_empty());
    assert_eq!(
        report(&mut s, both_in(), on(), back + secs(2)),
        resumed()
    );
}

#[test]
fn a_link_that_comes_back_after_the_window_never_resumes() {
    let t0 = T0;
    let mut s = listening(t0);
    assert_eq!(
        report(&mut s, one_out(), on(), t0),
        [Action::PauseLocalPlayers]
    );
    play(&mut s, false, t0 + SETTLE);
    assert!(decide(&mut s, Event::LinkClosed, on(), t0 + secs(5)).is_empty());
    let late = t0 + RESUME_WINDOW + secs(30);
    // The tick that crosses the window drops it, before any ear report.
    assert!(decide(&mut s, Event::Tick, on(), late).is_empty());
    assert!(!s.resume_pending());
    assert!(report(&mut s, both_in(), on(), late).is_empty());
}

#[test]
fn an_all_unknown_reading_is_not_two_buds_removed() {
    let t0 = T0;
    let mut s = listening(t0);
    let blank = ear(EarState::Unknown, EarState::Unknown);
    assert!(decide(&mut s, Event::Ear(blank), on(), t0).is_empty());
    assert!(decide(&mut s, Event::Tick, on(), t0 + SETTLE * 2).is_empty());
    assert!(!s.resume_pending());
}

#[test]
fn another_host_owning_the_airpods_blocks_both_halves() {
    let t0 = T0;
    let mut s = listening(t0);
    let yielded = Context {
        audio_on_airpods: false,
    };
    assert!(
        report(&mut s, one_out(), yielded, t0).is_empty(),
        "the other host's audio is not ours to pause"
    );
    assert!(!s.resume_pending());

    // Pause while owning, then lose ownership before the bud goes back.
    let mut s = listening(t0);
    assert_eq!(
        report(&mut s, one_out(), on(), t0),
        [Action::PauseLocalPlayers]
    );
    play(&mut s, false, t0 + SETTLE);
    let back = t0 + secs(20);
    assert!(
        report(&mut s, both_in(), yielded, back).is_empty(),
        "auris never starts a player while another host owns the AirPods"
    );
    assert!(
        !s.resume_pending(),
        "the missed resume is dropped, not held"
    );
}

#[test]
fn the_feature_switches_off() {
    let t0 = T0;
    let mut s = EarMediaState::new(EarConfig {
        auto_pause: false,
        ..EarConfig::default()
    });
    play(&mut s, true, t0);
    assert!(report(&mut s, both_in(), on(), t0).is_empty());
    assert!(report(&mut s, one_out(), on(), t0 + secs(2)).is_empty());
    assert!(!s.resume_pending());

    let mut s = EarMediaState::new(EarConfig {
        auto_resume: false,
        ..EarConfig::default()
    });
    assert!(s.config().auto_pause, "only the resume half is off");
    play(&mut s, true, t0);
    assert!(report(&mut s, both_in(), on(), t0).is_empty());
    assert_eq!(
        report(&mut s, one_out(), on(), t0 + secs(2)),
        [Action::PauseLocalPlayers]
    );
    play(&mut s, false, t0 + secs(3));
    assert!(report(&mut s, both_in(), on(), t0 + secs(9)).is_empty());
}

#[test]
fn a_player_never_seen_playing_is_not_resumed_blindly() {
    let t0 = T0;
    let mut s = EarMediaState::new(EarConfig::default());
    // Playing, but no bus name was ever reported.
    assert!(decide(
        &mut s,
        Event::Playback {
            playing: true,
            player: None
        },
        on(),
        t0
    )
    .is_empty());
    assert!(report(&mut s, both_in(), on(), t0).is_empty());
    assert_eq!(
        report(&mut s, one_out(), on(), t0),
        [Action::PauseLocalPlayers]
    );
    decide(
        &mut s,
        Event::Playback {
            playing: false,
            player: None,
        },
        on(),
        t0 + SETTLE,
    );
    assert_eq!(
        report(&mut s, both_in(), on(), t0 + secs(5)),
        [Action::ResumePlayer { player: None }]
    );
}

#[test]
fn a_resume_at_the_very_end_of_the_window_still_happens() {
    let t0 = T0;
    let player = Some("p".to_owned());
    for (late, expected) in [
        (0, vec![Action::ResumePlayer { player: player.clone() }]),
        (1, Vec::new()),
    ] {
        let mut s = EarMediaState::new(EarConfig::default());
        let started = Event::Playback { playing: true, player: player.clone() };
        assert_eq!(decide(&mut s, started, on(), t0), []);
        assert_eq!(report(&mut s, both_in(), on(), t0), []);
        assert_eq!(report(&mut s, one_out(), on(), t0 + secs(1)), [Action::PauseLocalPlayers]);
        let stopped = Event::Playback { playing: false, player: None };
        assert_eq!(decide(&mut s, stopped, on(), t0 + secs(2)), []);
        let back = t0 + secs(1) + RESUME_WINDOW + late;
        assert_eq!(report(&mut s, both_in(), on(), back), expected);
        assert!(!s.resume_pending());
    }
}

#[test]
fn a_repeated_playback_report_leaves_a_pending_resume_alone() {
    let t0 = T0;
    let mut s = listening(t0);
    assert_eq!(report(&mut s, one_out(), on(), t0 + secs(1)), [Action::PauseLocalPlayers]);
    play(&mut s, false, t0 + secs(2));
    play(&mut s, false, t0 + secs(3));
    assert!(s.resume_pending());
    play(&mut s, true, t0 + secs(4));
    assert!(!s.resume_pending());
    play(&mut s, false, t0 + secs(5));
    assert!(!s.resume_pending());
}
