//! Local media players over MPRIS.
use crate::text::{chars_of, same_optional, same_text, starts_with, text_view};
use vstd::prelude::*;
use vstd::string::*;

verus! {

/// Aggregate playback state of every local player.
#[derive(Debug, PartialEq, Eq)]
pub struct PlaybackReading {
    /// At least one player reports `Playing`.
    pub playing: bool,
    /// `Identity` of the first playing player.
    pub app: Option<String>,
    /// Bus name of the first playing player, for pausing exactly that one.
    pub player: Option<String>,
}

impl Clone for PlaybackReading {
    fn clone(&self) -> (r: Self)
        ensures
            r == *self,
    {
        PlaybackReading {
            playing: self.playing,
            app: self.app.clone(),
            player: self.player.clone(),
        }
    }
}

/// Requests from the session.
#[derive(Debug, Clone, PartialEq, Eq)]
pub enum MprisCommand {
    /// Pause every player that is currently `Playing`.
    PausePlaying,
    /// Pause one player by bus name. Chromium resumes itself when its audio
    /// sink changes, so the handoff hold pauses it again.
    Pause(String),
    /// Resume one player by bus name, after ear detection paused it. Only a
    /// player that is still `Paused` is started.
    Play(String),
}

/// A request with its text read as a sequence.
#[verifier::ext_equal]
pub enum MprisModel {
    /// See [`MprisCommand::PausePlaying`].
    PausePlaying,
    /// See [`MprisCommand::Pause`].
    Pause(Seq<char>),
    /// See [`MprisCommand::Play`].
    Play(Seq<char>),
}

impl View for MprisCommand {
    type V = MprisModel;

    open spec fn view(&self) -> MprisModel {
        match *self {
            MprisCommand::PausePlaying => MprisModel::PausePlaying,
            MprisCommand::Pause(name) => MprisModel::Pause(name@),
            MprisCommand::Play(name) => MprisModel::Play(name@),
        }
    }
}

/// Bus names of media players begin with this.
pub const PLAYER_PREFIX: &'static str = "org.mpris.MediaPlayer2.";

/// playerctld mirrors whichever player is active; reading it double counts.
pub const PLAYERCTLD: &'static str = "org.mpris.MediaPlayer2.playerctld";

/// Whether a bus name belongs to the media player interface.
pub fn is_player_name(name: &str) -> (r: bool)
    ensures
        r == PLAYER_PREFIX@.is_prefix_of(name@),
{
    starts_with(&chars_of(name), PLAYER_PREFIX)
}

/// A bus name that is read as a player.
pub open spec fn counted(name: Seq<char>) -> bool {
    PLAYER_PREFIX@.is_prefix_of(name) && name != PLAYERCTLD@
}

/// Whether a bus name is read as a player.
pub fn is_player(name: &str) -> (r: bool)
    ensures
        r == counted(name@),
{
    is_player_name(name) && !same_text(name, PLAYERCTLD)
}

/// A player that answered: its bus name and `PlaybackStatus`.
#[derive(Debug, PartialEq, Eq)]
pub struct Player {
    /// Bus name.
    pub name: String,
    /// `Playing`, `Paused` or `Stopped`.
    pub status: String,
}

/// The player is playing.
pub open spec fn plays(player: Player) -> bool {
    player.status@ == "Playing"@
}

/// Whether the player is playing.
pub fn is_playing(player: &Player) -> (r: bool)
    ensures
        r == plays(*player),
{
    same_text(player.status.as_str(), "Playing")
}

/// The first player that is playing.
pub fn first_playing(players: &Vec<Player>) -> (r: Option<usize>)
    ensures
        match r {
            Some(i) => i < players@.len() && plays(players@[i as int]) && (forall|k: int|
                0 <= k < i ==> !plays(#[trigger] players@[k])),
            None => forall|k: int| 0 <= k < players@.len() ==> !plays(#[trigger] players@[k]),
        },
{
    let mut i: usize = 0;
    while i < players.len()
        invariant
            i <= players@.len(),
            forall|k: int| 0 <= k < i ==> !plays(#[trigger] players@[k]),
        decreases players@.len() - i,
    {
        if is_playing(&players[i]) {
            return Some(i);
        }
        i += 1;
    }
    None
}

/// The aggregate reading: of the first player that is playing, with the name
/// it gives itself, or that nothing plays.
pub fn reading_of(player: Option<String>, app: Option<String>) -> (r: PlaybackReading)
    ensures
        r == (match player {
            Some(name) => PlaybackReading { playing: true, app, player: Some(name) },
            None => PlaybackReading { playing: false, app: None, player: None },
        }),
{
    match player {
        Some(name) => PlaybackReading { playing: true, app, player: Some(name) },
        None => PlaybackReading { playing: false, app: None, player: None },
    }
}

/// Two readings say the same.
pub open spec fn same_reading(a: PlaybackReading, b: PlaybackReading) -> bool {
    a.playing == b.playing && text_view(a.app) == text_view(b.app) && text_view(a.player)
        == text_view(b.player)
}

/// Whether a reading is to be sent: it differs from the last one, or is the
/// first.
pub fn is_news(last: &Option<PlaybackReading>, reading: &PlaybackReading) -> (r: bool)
    ensures
        r == !(*last matches Some(before) && same_reading(before, *reading)),
{
    match last {
        Some(before) => !(before.playing == reading.playing && same_optional(
            &before.app,
            &reading.app,
        ) && same_optional(&before.player, &reading.player)),
        None => true,
    }
}

/// Whether a player may be resumed: only while it is still `Paused`. A player
/// the user stopped, closed and reopened, or left playing something else must
/// not be started.
pub fn may_resume(status: &str) -> (r: bool)
    ensures
        r == (status@ == "Paused"@),
{
    same_text(status, "Paused")
}

} // verus!
