use aurisd::autoconnect::{
    decide, model_bytes, qualifies, Action, AutoConnectState, Event, DEFAULT_MODEL_ID,
};
use aurisd::clock::{Duration, Instant, MILLISECOND, SECOND};
use aurisd::config::AutoconnectConfig;
use aurisd::rejoin::{Outcome, Reason};

/// Where the clock stands when a test starts.
const T0: Instant = 3_600 * SECOND;

fn state() -> AutoConnectState {
    AutoConnectState::new(&AutoconnectConfig::default())
}

fn seen(s: &mut AutoConnectState, now: Instant) -> Vec<Action> {
    decide(s, Event::Seen { rssi: Some(-50) }, now)
}

fn connect_at(s: &mut AutoConnectState, at: Instant) -> Vec<Action> {
    decide(s, Event::Tick, at)
}

fn finished(s: &mut AutoConnectState, seq: u64, outcome: Outcome, now: Instant) -> Vec<Action> {
    decide(s, Event::ConnectFinished { seq, outcome }, now)
}

#[test]
fn first_sight_connects_after_the_settle_wait() {
    let t0 = T0;
    let mut s = state();
    let out = seen(&mut s, t0);
    assert_eq!(
        out,
        vec![Action::EpisodeStarted {
            rssi: Some(-50),
            delay: secs(3)
        }]
    );
    // Not yet: the Mac gets its chance first.
    assert!(connect_at(&mut s, t0 + secs(2)).is_empty());
    assert_eq!(
        connect_at(&mut s, t0 + secs(3)),
        vec![Action::Connect { seq: 1, attempt: 1 }]
    );
    // In flight: a tick does not start a second one.
    assert!(connect_at(&mut s, t0 + secs(4)).is_empty());
    assert_eq!(
        finished(&mut s, 1, Outcome::Connected, t0 + secs(5)),
        vec![Action::Connected]
    );
    assert!(!s.is_pending());
    assert!(!s.should_scan());
}

#[test]
fn a_second_advert_in_the_same_episode_does_not_connect_again() {
    let t0 = T0;
    let mut s = state();
    seen(&mut s, t0);
    connect_at(&mut s, t0 + secs(3));
    finished(&mut s, 1, Outcome::Connected, t0 + secs(4));
    decide(&mut s, Event::LocalConnected, t0 + secs(4));
    decide(
        &mut s,
        Event::LocalDisconnected {
            reason: Reason::Remote,
        },
        t0 + secs(5),
    );
    // Still the same outing: adverts keep arriving, nothing happens.
    for n in 6..20 {
        assert!(seen(&mut s, t0 + secs(n)).is_empty(), "{n}");
        assert!(connect_at(&mut s, t0 + secs(n)).is_empty());
    }
    assert!(!s.is_pending());
}

#[test]
fn an_absence_starts_a_new_episode() {
    let t0 = T0;
    let mut s = state();
    seen(&mut s, t0);
    connect_at(&mut s, t0 + secs(3));
    finished(&mut s, 1, Outcome::Connected, t0 + secs(4));
    decide(&mut s, Event::LocalConnected, t0 + secs(4));
    let back_in_case = t0 + secs(60);
    decide(
        &mut s,
        Event::LocalDisconnected {
            reason: Reason::Timeout,
        },
        back_in_case,
    );
    let reopened = back_in_case + secs(20);
    assert_eq!(
        seen(&mut s, reopened),
        vec![Action::EpisodeStarted {
            rssi: Some(-50),
            delay: secs(3)
        }]
    );
    assert_eq!(
        connect_at(&mut s, reopened + secs(3)),
        vec![Action::Connect { seq: 2, attempt: 1 }]
    );
}

#[test]
fn a_manual_command_disarms_until_an_absence() {
    let t0 = T0;
    let mut s = state();
    seen(&mut s, t0);
    assert_eq!(
        decide(&mut s, Event::ManualCommand, t0 + secs(1)),
        vec![
            Action::Cancelled("manual_command"),
            Action::Disarmed("manual_command")
        ]
    );
    assert!(s.is_disarmed());
    // The user put them on the Mac; adverts keep coming and are ignored.
    for n in 2..14 {
        assert!(seen(&mut s, t0 + secs(n)).is_empty(), "{n}");
    }
    assert!(connect_at(&mut s, t0 + secs(30)).is_empty());
    let after_absence = t0 + secs(13 + 15);
    let out = seen(&mut s, after_absence);
    assert_eq!(out[0], Action::Rearmed);
    assert!(matches!(out[1], Action::EpisodeStarted { .. }));
    assert!(!s.is_disarmed());
}

#[test]
fn a_local_disconnect_disarms_but_a_remote_one_does_not() {
    let t0 = T0;
    let mut s = state();
    decide(&mut s, Event::LocalConnected, t0);
    let out = decide(
        &mut s,
        Event::LocalDisconnected {
            reason: Reason::Local,
        },
        t0 + secs(1),
    );
    assert_eq!(out, vec![Action::Disarmed("local_disconnect")]);
    assert!(seen(&mut s, t0 + secs(2)).is_empty());

    let mut s = state();
    decide(&mut s, Event::LocalConnected, t0);
    assert!(decide(
        &mut s,
        Event::LocalDisconnected {
            reason: Reason::Remote,
        },
        t0 + secs(1),
    )
    .is_empty());
    assert!(!s.is_disarmed());
    // Still nothing while the adverts continue: no absence, no episode.
    assert!(seen(&mut s, t0 + secs(2)).is_empty());
    assert!(matches!(
        seen(&mut s, t0 + secs(40)).as_slice(),
        [Action::EpisodeStarted { .. }]
    ));
}

#[test]
fn a_pending_rejoin_owns_the_link() {
    let t0 = T0;
    let mut s = state();
    s.rejoin_pending = true;
    assert_eq!(seen(&mut s, t0), vec![Action::Skipped("rejoin_pending")]);
    assert!(!s.is_pending());
    // A rejoin that starts after the episode did cancels it too.
    let mut s = state();
    seen(&mut s, t0);
    s.rejoin_pending = true;
    assert_eq!(
        connect_at(&mut s, t0 + secs(3)),
        vec![Action::Cancelled("rejoin_pending")]
    );
}

#[test]
fn failures_back_off_and_stop_after_four_attempts() {
    let t0 = T0;
    let mut s = state();
    seen(&mut s, t0);
    let mut at = t0 + secs(3);
    for (attempt, wait) in [(1u8, 5u64), (2, 15), (3, 45)] {
        assert_eq!(
            connect_at(&mut s, at),
            vec![Action::Connect { seq: 1, attempt }],
            "attempt {attempt}"
        );
        assert_eq!(
            finished(&mut s, 1, Outcome::Busy, at),
            vec![Action::Retry {
                attempt: attempt + 1,
                wait: secs(wait)
            }]
        );
        at += secs(wait);
        // Adverts keep the retry alive.
        seen(&mut s, at);
    }
    assert_eq!(
        connect_at(&mut s, at),
        vec![Action::Connect { seq: 1, attempt: 4 }]
    );
    let out = finished(
        &mut s,
        1,
        Outcome::Failed("br-connection-refused".into()),
        at,
    );
    assert!(
        matches!(&out[..], [Action::GaveUp(e)] if e.contains("br-connection-refused")),
        "{out:?}"
    );
    assert!(!s.is_pending());
    // Quiet until the next absence.
    assert!(seen(&mut s, at + secs(1)).is_empty());
}

#[test]
fn a_retry_stops_once_the_adverts_go_stale() {
    let t0 = T0;
    let mut s = state();
    seen(&mut s, t0);
    let first = t0 + secs(3);
    assert_eq!(
        connect_at(&mut s, first),
        vec![Action::Connect { seq: 1, attempt: 1 }]
    );
    finished(&mut s, 1, Outcome::Busy, first);
    // The second attempt still goes: the advert is eight seconds old.
    let second = first + secs(5);
    assert_eq!(
        connect_at(&mut s, second),
        vec![Action::Connect { seq: 1, attempt: 2 }]
    );
    finished(&mut s, 1, Outcome::Busy, second);
    // They went back in the case: nothing heard for more than
    // ADVERT_FRESH, so the third attempt would be paging an empty room.
    assert_eq!(
        connect_at(&mut s, second + secs(15)),
        vec![Action::Cancelled("stale_adverts")]
    );
    assert!(!s.is_pending());
}

#[test]
fn a_connect_that_finds_the_link_taken_does_not_retry() {
    let t0 = T0;
    let mut s = state();
    seen(&mut s, t0);
    connect_at(&mut s, t0 + secs(3));
    assert_eq!(
        finished(
            &mut s,
            1,
            Outcome::NotReady("connected_by_other_means"),
            t0 + secs(4)
        ),
        vec![Action::Cancelled("connected_by_other_means")]
    );
    assert!(!s.is_pending());
    // A stale result from an older sequence is ignored.
    assert!(finished(&mut s, 1, Outcome::Connected, t0).is_empty());
}

#[test]
fn disabled_does_nothing_and_never_scans() {
    let t0 = T0;
    let mut s = AutoConnectState::new(&AutoconnectConfig {
        enabled: false,
        ..AutoconnectConfig::default()
    });
    assert!(!s.should_scan());
    assert!(seen(&mut s, t0).is_empty());
    assert!(connect_at(&mut s, t0 + secs(10)).is_empty());
    assert!(!s.is_pending());
}

#[test]
fn a_weak_advert_is_not_presence() {
    let t0 = T0;
    let mut s = state();
    assert_eq!(
        decide(&mut s, Event::Seen { rssi: Some(-95) }, t0),
        vec![Action::Skipped("rssi_below_min")]
    );
    assert!(!s.is_pending());
    // It did not reset the absence clock either.
    assert!(matches!(
        decide(
            &mut s,
            Event::Seen { rssi: None },
            t0 + secs(1)
        )
        .as_slice(),
        [Action::EpisodeStarted { rssi: None, .. }]
    ));
}

#[test]
fn scanning_follows_the_local_link() {
    let t0 = T0;
    let mut s = state();
    assert!(s.should_scan());
    decide(&mut s, Event::LocalConnected, t0);
    assert!(!s.should_scan());
    decide(
        &mut s,
        Event::LocalDisconnected {
            reason: Reason::Timeout,
        },
        t0 + secs(1),
    );
    assert!(s.should_scan());
}

fn gone(s: &mut AutoConnectState, at: Instant, reason: Reason) -> Vec<Action> {
    decide(s, Event::LocalDisconnected { reason }, at)
}

/// Connected at `t0`, dropped by the AirPods a second later. Returns the
/// moment of the drop, which is where the fallback clock starts.
fn dropped(s: &mut AutoConnectState, t0: Instant) -> Instant {
    decide(s, Event::LocalConnected, t0);
    let at = t0 + secs(1);
    assert!(gone(s, at, Reason::Remote).is_empty());
    // The bare `Connected` property change that follows the signal must
    // not disturb the window the signal just opened.
    assert!(gone(s, at + ms(5), Reason::Unknown).is_empty());
    at
}

fn ms(n: u64) -> Duration {
    Duration::from(n) * MILLISECOND
}

fn secs(n: u64) -> Duration {
    Duration::from(n) * SECOND
}

fn page_timed_out(s: &mut AutoConnectState, seq: u64, at: Instant) -> Vec<Action> {
    finished(
        s,
        seq,
        Outcome::Failed("br-connection-page-timeout".to_owned()),
        at,
    )
}

#[test]
fn no_advert_after_a_remote_drop_pages_on_the_fallback_cadence() {
    // A case cycle where the adapter never reports a qualifying advert
    // means nothing ever pages on the advert path.
    let t0 = T0;
    let mut s = state();
    let away = dropped(&mut s, t0);
    assert!(connect_at(&mut s, away + secs(19)).is_empty());
    assert_eq!(
        connect_at(&mut s, away + secs(20)),
        vec![
            Action::FallbackPage {
                away: secs(20),
                next: secs(45),
            },
            Action::Connect { seq: 1, attempt: 1 },
        ]
    );
    // One page per slot.
    assert!(connect_at(&mut s, away + secs(21)).is_empty());
    // A page timeout is not a failure to back off from: the cadence
    // already says when to try again.
    let out = page_timed_out(&mut s, 1, away + secs(25));
    assert!(
        matches!(&out[..], [Action::FallbackFailed(e)] if e.contains("page-timeout")),
        "{out:?}"
    );
    assert!(!s.is_pending());
    assert!(connect_at(&mut s, away + secs(64)).is_empty());
    assert!(matches!(
        connect_at(&mut s, away + secs(65)).as_slice(),
        [
            Action::FallbackPage { .. },
            Action::Connect { seq: 2, attempt: 1 }
        ]
    ));
    page_timed_out(&mut s, 2, away + secs(70));

    // And it stops at the budget: ten minutes after the drop.
    let mut seq = 2;
    let mut pages = 0;
    for n in (75..=900).step_by(5) {
        let at = away + secs(n);
        let out = connect_at(&mut s, at);
        if !out.is_empty() {
            assert!(n <= 600, "paged {n} s after the drop, past the budget");
            pages += 1;
            seq += 1;
            page_timed_out(&mut s, seq, at);
        }
    }
    assert_eq!(pages, 11, "one page every 45 s to the ten-minute budget");
}

#[test]
fn a_manual_command_suppresses_the_fallback_page() {
    let t0 = T0;
    let mut s = state();
    let away = dropped(&mut s, t0);
    decide(&mut s, Event::ManualCommand, away + secs(2));
    for n in [20u64, 65, 110] {
        assert!(connect_at(&mut s, away + secs(n)).is_empty(), "{n}");
    }
    assert!(!s.is_pending());
}

#[test]
fn a_local_disconnect_suppresses_the_fallback_page() {
    let t0 = T0;
    let mut s = state();
    decide(&mut s, Event::LocalConnected, t0);
    let away = t0 + secs(1);
    assert_eq!(
        gone(&mut s, away, Reason::Local),
        vec![Action::Disarmed("local_disconnect")]
    );
    assert!(gone(&mut s, away + ms(5), Reason::Unknown).is_empty());
    for n in [20u64, 65, 110] {
        assert!(connect_at(&mut s, away + secs(n)).is_empty(), "{n}");
    }
    assert!(!s.is_pending());
}

#[test]
fn an_advert_episode_keeps_priority_and_the_fallback_clock_stands() {
    let t0 = T0;
    let mut s = state();
    let away = dropped(&mut s, t0);
    // An advert two seconds before the first fallback slot: the episode
    // owns the link, and the slot passes without a second page.
    assert!(matches!(
        seen(&mut s, away + secs(18)).as_slice(),
        [Action::EpisodeStarted { .. }]
    ));
    assert!(connect_at(&mut s, away + secs(20)).is_empty());
    let mut at = away + secs(21);
    assert_eq!(
        connect_at(&mut s, at),
        vec![Action::Connect { seq: 1, attempt: 1 }]
    );
    for (attempt, wait) in [(1u8, 5u64), (2, 15), (3, 45)] {
        finished(&mut s, 1, Outcome::Busy, at);
        at += secs(wait);
        seen(&mut s, at);
        assert_eq!(
            connect_at(&mut s, at),
            vec![Action::Connect {
                seq: 1,
                attempt: attempt + 1
            }],
            "attempt {attempt}"
        );
    }
    let out = finished(&mut s, 1, Outcome::Busy, at);
    assert!(matches!(&out[..], [Action::GaveUp(_)]), "{out:?}");
    // The episode changed nothing about the fallback: its first slot is
    // long due, so the next tick pages.
    assert!(matches!(
        connect_at(&mut s, at + secs(1)).as_slice(),
        [
            Action::FallbackPage { .. },
            Action::Connect { seq: 2, attempt: 1 }
        ]
    ));
}

#[test]
fn a_zero_fallback_budget_leaves_only_the_advert_trigger() {
    let t0 = T0;
    let mut s = AutoConnectState::new(&AutoconnectConfig {
        fallback_minutes: 0,
        ..AutoconnectConfig::default()
    });
    let away = dropped(&mut s, t0);
    for n in [20u64, 65, 110, 300] {
        assert!(connect_at(&mut s, away + secs(n)).is_empty(), "{n}");
    }
    assert!(matches!(
        seen(&mut s, away + secs(400)).as_slice(),
        [Action::EpisodeStarted { .. }]
    ));
}

#[test]
fn a_daemon_that_starts_away_pages_too_and_stops_when_somebody_else_wins() {
    let t0 = T0;
    let mut s = state();
    // No disconnect was ever seen: the first tick anchors the window.
    assert!(connect_at(&mut s, t0).is_empty());
    // A rejoin owns eviction recovery; the fallback never pages over it.
    s.rejoin_pending = true;
    assert!(connect_at(&mut s, t0 + secs(20)).is_empty());
    s.rejoin_pending = false;
    assert!(matches!(
        connect_at(&mut s, t0 + secs(21)).as_slice(),
        [Action::FallbackPage { .. }, Action::Connect { seq: 1, .. }]
    ));
    assert_eq!(s.pending_attempt(), 1);
    assert_eq!(
        finished(
            &mut s,
            1,
            Outcome::NotReady("connected_by_other_means"),
            t0 + secs(22)
        ),
        vec![Action::Cancelled("connected_by_other_means")]
    );
    // Somebody else has them: no more pages until the next drop.
    for n in [66u64, 111, 300] {
        assert!(connect_at(&mut s, t0 + secs(n)).is_empty(), "{n}");
    }
}

#[test]
fn only_a_paired_airpods_4_advert_out_of_the_case_qualifies() {
    assert_eq!(model_bytes("201B"), [0x1b, 0x20]);
    assert_eq!(model_bytes("2019"), [0x19, 0x20]);
    assert_eq!(model_bytes(""), DEFAULT_MODEL_ID.to_le_bytes());
    assert_eq!(model_bytes("nonsense"), DEFAULT_MODEL_ID.to_le_bytes());
    let model = model_bytes("201B");
    let good = [0x07u8, 0x19, 0x01, 0x1b, 0x20, 0x60, 0, 0];
    assert!(qualifies(&good, model));
    for (index, value) in [(0, 0x10), (2, 0x00), (3, 0x0e), (4, 0x00)] {
        let mut bad = good;
        bad[index] = value;
        assert!(!qualifies(&bad, model), "byte {index}");
    }
    for len in 0..5 {
        assert!(!qualifies(&good[..len], model));
    }
    // A different model's advert is somebody else's AirPods.
    assert!(!qualifies(&good, model_bytes("2014")));
}

#[test]
fn the_pending_view_counts_connects_started_in_the_episode() {
    let t0 = T0;
    let mut s = state();
    assert_eq!(s.pending_seq(), None);
    assert_eq!(s.pending_attempt(), 0);

    seen(&mut s, t0);
    assert_eq!(s.pending_seq(), Some(1));
    assert_eq!(s.pending_attempt(), 0, "scheduled, not connecting");

    connect_at(&mut s, t0 + secs(3));
    assert_eq!(s.pending_attempt(), 1);

    finished(
        &mut s,
        1,
        Outcome::Failed("br-connection-page-timeout".to_owned()),
        t0 + secs(4),
    );
    // The retry is waiting, so no second connect has started yet.
    assert_eq!(s.pending_attempt(), 1);
    assert_eq!(s.pending_seq(), Some(1));

    seen(&mut s, t0 + secs(5));
    connect_at(&mut s, t0 + secs(10));
    assert_eq!(s.pending_attempt(), 2);
}

#[test]
fn a_result_nobody_waits_for_changes_nothing() {
    let t0 = T0;
    let mut s = state();
    seen(&mut s, t0);
    assert_eq!(finished(&mut s, 1, Outcome::Connected, t0 + secs(1)), []);
    assert!(s.is_pending());
    assert_eq!(s.pending_seq(), Some(1));
    assert!(s.should_scan());
    connect_at(&mut s, t0 + secs(3));
    assert_eq!(finished(&mut s, 7, Outcome::Connected, t0 + secs(4)), []);
    assert_eq!((s.pending_seq(), s.pending_attempt()), (Some(1), 1));
    assert!(s.should_scan() && !s.is_disarmed());
}

#[test]
fn configured_waits_are_kept_to_the_second() {
    let long = u64::MAX / 60;
    let mut s = AutoConnectState::new(&AutoconnectConfig {
        settle_seconds: u64::MAX,
        fallback_first_seconds: u64::MAX,
        fallback_minutes: long,
        ..AutoconnectConfig::default()
    });
    assert_eq!(s.fallback_budget, secs(long * 60));
    assert_eq!(
        seen(&mut s, T0),
        [Action::EpisodeStarted {
            rssi: Some(-50),
            delay: 18_446_744_073_709_551_615 * SECOND,
        }]
    );
    assert_eq!(connect_at(&mut s, T0 + secs(u64::MAX) - 1), []);
    assert_eq!(
        connect_at(&mut s, T0 + secs(u64::MAX)),
        [Action::Connect { seq: 1, attempt: 1 }]
    );
}

#[test]
fn the_attempt_shown_is_the_number_of_connects_started() {
    let mut s = state();
    let mut started: u8 = 0;
    seen(&mut s, T0);
    let mut now = T0 + secs(3);
    for _ in 0..4 {
        assert_eq!(s.pending_attempt(), started);
        seen(&mut s, now);
        let out = connect_at(&mut s, now);
        assert_eq!(out, [Action::Connect { seq: 1, attempt: started + 1 }]);
        started += 1;
        assert_eq!(s.pending_attempt(), started);
        finished(&mut s, 1, Outcome::Busy, now);
        now += secs(45);
    }
    assert!(!s.is_pending());
    assert_eq!(s.pending_attempt(), 0);
}
