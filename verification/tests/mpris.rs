//! Local media players.

use aurisd::mpris::{
    first_playing, is_news, is_player, is_player_name, is_playing, may_resume, reading_of, Player,
};

fn player(name: &str, status: &str) -> Player {
    Player {
        name: format!("org.mpris.MediaPlayer2.{name}"),
        status: status.to_owned(),
    }
}

#[test]
fn playerctld_is_no_player_of_its_own() {
    assert!(is_player("org.mpris.MediaPlayer2.firefox"));
    assert!(!is_player("org.mpris.MediaPlayer2.playerctld"));
    assert!(is_player_name("org.mpris.MediaPlayer2.playerctld"));
    assert!(!is_player("org.mpris.MediaPlayer2"));
    assert!(!is_player("org.freedesktop.DBus"));
}

#[test]
fn the_first_playing_player_is_the_reading() {
    let players = vec![
        player("a", "Paused"),
        player("b", "Playing"),
        player("c", "Playing"),
    ];
    assert!(is_playing(&players[1]));
    assert!(!is_playing(&players[0]));
    assert_eq!(first_playing(&players), Some(1));
    assert_eq!(first_playing(&vec![player("a", "Stopped")]), None);

    let reading = reading_of(Some(players[1].name.clone()), Some("B".into()));
    assert!(reading.playing);
    assert_eq!(reading.app.as_deref(), Some("B"));
    assert_eq!(reading.player.as_deref(), Some("org.mpris.MediaPlayer2.b"));
    let silent = reading_of(None, Some("B".into()));
    assert_eq!((silent.playing, silent.app, silent.player), (false, None, None));
}

#[test]
fn a_reading_is_sent_when_it_differs() {
    let reading = reading_of(Some("b".into()), Some("B".into()));
    assert!(is_news(&None, &reading));
    assert!(!is_news(&Some(reading.clone()), &reading));
    assert!(is_news(&Some(reading_of(Some("b".into()), None)), &reading));
    assert!(is_news(&Some(reading_of(None, None)), &reading));
}

#[test]
fn only_a_paused_player_is_resumed() {
    assert!(may_resume("Paused"));
    assert!(!may_resume("Stopped"));
    assert!(!may_resume("Playing"));
}
