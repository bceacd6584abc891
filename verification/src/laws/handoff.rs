//! Who has the audio, and what is done about it.
use super::age;
use crate::aap::codec::AudioSourceState;
use crate::address::Address;
use crate::audio_route::RouteMode;
use crate::clock::Instant;
use crate::handoff::{
    introductions, joined_hosts, on_tick, other_hosts, play_tick, publishes, step, stop_tick,
    stream_tick, ActionModel, Event, HandoffModel,
};
use crate::state::{AudioSourceStatus, Handoff, HandoffEventKind, HandoffOwner};
use crate::text::text_view;
use vstd::prelude::*;
use vstd::string::*;

verus! {

// ---------------------------------------------------------------------------
// What a state says
// ---------------------------------------------------------------------------

/// Less than `window` nanoseconds ago.
pub open spec fn since_less(t: Option<Instant>, now: Instant, window: int) -> bool {
    t is Some && age(now, t->0) < window
}

/// Another host is the reported source, in a call or playing.
pub open spec fn another_sounds(m: HandoffModel) -> bool {
    m.audio_source is Some && (m.audio_source->0).1 != AudioSourceStatus::Idle && m.local != Some(
        (m.audio_source->0).0,
    )
}

/// Another host is the reported source, in a call.
pub open spec fn another_calls(m: HandoffModel) -> bool {
    m.audio_source is Some && (m.audio_source->0).1 == AudioSourceStatus::Call && m.local != Some(
        (m.audio_source->0).0,
    )
}

/// The AirPods said that the audio is this host's, and it was not given up.
pub open spec fn has_audio(m: HandoffModel) -> bool {
    m.owner == HandoffOwner::Local && !m.released
}

/// Reports belong to the opening dump: for three seconds, and until the dump
/// has ended, but never beyond ten.
pub open spec fn dumping(m: HandoffModel, now: Instant) -> bool {
    m.opened_at is Some && age(now, m.opened_at->0) < 10_000_000_000 && (age(now, m.opened_at->0)
        < 3_000_000_000 || !m.opening_settled)
}

/// The listed hosts other than this one, in order.
pub open spec fn listed(m: HandoffModel) -> Seq<Address> {
    m.devices.filter(|d: Address| m.local != Some(d))
}

/// The name of the app that plays, or two letters for none.
pub open spec fn app_name(m: HandoffModel) -> Seq<char> {
    if m.playing_app is Some {
        m.playing_app->0
    } else {
        "NA"@
    }
}

/// Every other listed host is told whether this host streams.
pub open spec fn told(m: HandoffModel, streaming: bool) -> Seq<ActionModel> {
    listed(m).map_values(
        |d: Address| ActionModel::SendMediaInfo { target: d, streaming, app: app_name(m) },
    )
}

/// The audio is given up, because of this host or of none known.
pub open spec fn giving_up(
    m: HandoffModel,
    says_so: bool,
    kind: HandoffEventKind,
    peer: Option<Address>,
) -> Seq<ActionModel> {
    if says_so {
        seq![
            ActionModel::PauseLocalPlayers,
            ActionModel::SetAudioRoute(RouteMode::Yielded),
            ActionModel::SendOwnership(false),
            ActionModel::Record { kind, peer },
        ]
    } else {
        seq![
            ActionModel::PauseLocalPlayers,
            ActionModel::SetAudioRoute(RouteMode::Yielded),
            ActionModel::Record { kind, peer },
        ]
    }
}

/// The audio is taken: the card first, then ownership, then word to every
/// other listed host, then the profile, and last the record.
pub open spec fn taking(m: HandoffModel) -> Seq<ActionModel> {
    seq![ActionModel::SetAudioRoute(RouteMode::Own), ActionModel::SendOwnership(true)] + told(
        m,
        true,
    ) + listed(m).map_values(|d: Address| ActionModel::SendHijack { target: d }) + seq![
        ActionModel::ClaimAudio,
        ActionModel::Record {
            kind: HandoffEventKind::TookOver,
            peer: if listed(m).len() > 0 {
                Some(listed(m)[0])
            } else if another_sounds(m) {
                Some((m.audio_source->0).0)
            } else {
                None
            },
        },
    ]
}

/// The audio was given up now: nothing of a take-over is left, and a hold
/// against players that resume themselves begins.
pub open spec fn gave_up(m: HandoffModel, after: HandoffModel, now: Instant) -> bool {
    &&& after.owner == HandoffOwner::Other && after.released
    &&& after.held && after.hold_from == Some(now) && after.last_request == Some(now)
    &&& after.repaused.len() == 0 && after.play_edge is None
    &&& after.stopped_at is None && after.took_over_at is None && after.stream_check is None
    &&& !after.reannounce
    &&& after.playing == m.playing && after.announced == m.announced && after.transport_active
        == m.transport_active && after.audio_changed == m.audio_changed
}

/// The audio was taken now: the stream is checked in three seconds, and said
/// again once it runs.
pub open spec fn took(m: HandoffModel, after: HandoffModel, now: Instant) -> bool {
    &&& after.owner == HandoffOwner::Local && !after.released && !after.held
    &&& after.took_over_at == Some(now) && after.announced == Some(true)
    &&& after.play_edge is None && after.stopped_at is None
    &&& m.transport_active is None ==> after.stream_check is None
    &&& m.transport_active is Some ==> (after.stream_check matches Some(t) && (now + 3_000_000_000
        <= u128::MAX ==> t == now + 3_000_000_000))
    &&& after.reannounce == (m.transport_active == Some(false))
    &&& after.playing == m.playing && after.repaused == m.repaused && after.last_request
        == m.last_request && after.hold_from == m.hold_from
}

/// What no event changes but its own.
pub open spec fn same_setup(m: HandoffModel, after: HandoffModel) -> bool {
    after.enabled == m.enabled && after.take_over_on_play == m.take_over_on_play
        && after.apple_host_id == m.apple_host_id && after.local == m.local && after.last_event
        == m.last_event
}

proof fn lemma_listed(m: HandoffModel)
    ensures
        m.others() == listed(m),
{
    lemma_others(m.local, m.devices);
}

proof fn lemma_others(local: Option<Address>, devices: Seq<Address>)
    ensures
        other_hosts(local, devices) == devices.filter(|d: Address| local != Some(d)),
    decreases devices.len(),
{
    reveal(Seq::filter);
    if devices.len() > 0 {
        lemma_others(local, devices.drop_last());
    }
}

proof fn lemma_told(m: HandoffModel, streaming: bool)
    ensures
        crate::handoff::media_infos(m.others(), streaming, m.app()) == told(m, streaming),
{
    lemma_listed(m);
    assert(crate::handoff::media_infos(m.others(), streaming, m.app()) =~= told(m, streaming));
}

proof fn lemma_taking(m: HandoffModel)
    ensures
        m.take_over_actions() == taking(m),
{
    lemma_listed(m);
    lemma_told(m, true);
    assert(crate::handoff::hijacks(m.others()) =~= listed(m).map_values(
        |d: Address| ActionModel::SendHijack { target: d },
    ));
    assert(m.take_over_actions() =~= taking(m));
}

proof fn lemma_giving_up(says_so: bool, kind: HandoffEventKind, peer: Option<Address>, m: HandoffModel)
    ensures
        crate::handoff::yield_actions(says_so, kind, peer) == giving_up(m, says_so, kind, peer),
{
    assert(crate::handoff::yield_actions(says_so, kind, peer) =~= giving_up(m, says_so, kind, peer));
}

// ---------------------------------------------------------------------------
// Giving the audio up
// ---------------------------------------------------------------------------

/// The status of a source that is not idle.
pub open spec fn sounding(state: AudioSourceState) -> Option<AudioSourceStatus> {
    match state {
        AudioSourceState::Call => Some(AudioSourceStatus::Call),
        AudioSourceState::Media => Some(AudioSourceStatus::Media),
        _ => None,
    }
}

/// Another host that starts to sound gets the audio, wherever switching is on,
/// the dump is over, it is news, and the audio was not given up already. It
/// is the owner in any case.
pub proof fn another_source_gets_the_audio(
    m: HandoffModel,
    address: Address,
    state: AudioSourceState,
    now: Instant,
)
    requires
        sounding(state) is Some,
        m.local is Some,
        m.local != Some(address),
    ensures
        ({
            let (after, actions) = step(m, Event::AudioSource { address, state }, now);
            let news = m.audio_source != Some((address, sounding(state)->0));
            let counts = m.enabled && !dumping(m, now) && news;
            &&& actions == (if counts && !m.released {
                giving_up(m, true, HandoffEventKind::Yielded, Some(address))
            } else {
                Seq::empty()
            })
            &&& same_setup(m, after)
            &&& after.owner == HandoffOwner::Other
            &&& after.audio_source == Some((address, sounding(state)->0))
            &&& after.devices == m.devices && after.link_up == m.link_up
            &&& counts && !m.released ==> gave_up(m, after, now)
            &&& counts && m.released ==> after.released && after.held && after.hold_from == Some(now)
                && after.last_request == Some(now) && after.repaused.len() == 0 && after.play_edge
                is None
            &&& !counts ==> after == (HandoffModel {
                owner: HandoffOwner::Other,
                audio_source: Some((address, sounding(state)->0)),
                ..m
            })
        }),
{
    reveal(step);
    lemma_giving_up(true, HandoffEventKind::Yielded, Some(address), m);
}

/// A report that nothing sounds, or that this host does, gives nothing up. It
/// ends a hold whose request is ten seconds old, and pauses again, once, a
/// player of this host that resumed itself while held.
pub proof fn an_idle_or_local_source_gives_nothing_up(
    m: HandoffModel,
    address: Address,
    state: AudioSourceState,
    now: Instant,
)
    requires
        m.local is Some,
        state == AudioSourceState::Idle || (m.local == Some(address) && sounding(state) is Some),
    ensures
        ({
            let (after, actions) = step(m, Event::AudioSource { address, state }, now);
            let here = state != AudioSourceState::Idle;
            let recent = since_less(m.last_request, now, 10_000_000_000);
            let again = m.held && !dumping(m, now) && recent && state == AudioSourceState::Media
                && m.play_edge is None && !m.repaused.contains(m.playing_player);
            &&& actions == (if again {
                seq![ActionModel::RepausePlayer { player: m.playing_player }]
            } else {
                Seq::empty()
            })
            &&& same_setup(m, after)
            &&& after.owner == (if here {
                HandoffOwner::Local
            } else {
                m.owner
            })
            &&& after.audio_changed == (if here {
                Some(now)
            } else {
                m.audio_changed
            })
            &&& after.held == (m.held && (dumping(m, now) || recent))
            &&& after.repaused == (if again {
                m.repaused.push(m.playing_player)
            } else {
                m.repaused
            })
            &&& after.hold_from == (if again {
                Some(now)
            } else {
                m.hold_from
            })
            &&& after.released == m.released && after.play_edge == m.play_edge && after.last_request
                == m.last_request && after.devices == m.devices && after.playing == m.playing
                && after.announced == m.announced && after.stream_check == m.stream_check
                && after.link_up == m.link_up
        }),
{
    reveal(step);
}

/// Before the local adapter is known a source is only noted, and a source
/// state that is not known is nothing.
pub proof fn a_source_needs_the_local_address(
    m: HandoffModel,
    address: Address,
    state: AudioSourceState,
    raw: u8,
    now: Instant,
)
    requires
        m.local is None,
        !(state is Other),
    ensures
        step(m, Event::AudioSource { address, state }, now).1.len() == 0,
        ({
            let after = step(m, Event::AudioSource { address, state }, now).0;
            after == (HandoffModel { audio_source: after.audio_source, ..m }) && (
            after.audio_source->0).0 == address && after.audio_source is Some
        }),
        step(m, Event::AudioSource { address, state: AudioSourceState::Other(raw) }, now) == (
            m,
            Seq::<ActionModel>::empty(),
        ),
{
    reveal(step);
}

/// The AirPods saying that another host owns them is a yield where switching
/// is on and the dump is over, and is not said back; saying that this host
/// does is noted.
pub proof fn losing_ownership_gives_the_audio_up(
    m: HandoffModel,
    owns: bool,
    opening: bool,
    now: Instant,
)
    ensures
        ({
            let (after, actions) = step(m, Event::OwnsConnection { owns, opening }, now);
            let counts = !owns && m.enabled && !opening && !dumping(m, now);
            &&& actions == (if counts && !m.released {
                giving_up(
                    m,
                    false,
                    HandoffEventKind::Yielded,
                    if another_sounds(m) {
                        Some((m.audio_source->0).0)
                    } else {
                        None
                    },
                )
            } else {
                Seq::empty()
            })
            &&& same_setup(m, after)
            &&& after.owner == (if owns {
                HandoffOwner::Local
            } else {
                HandoffOwner::Other
            })
            &&& counts && !m.released ==> gave_up(m, after, now)
            &&& counts && m.released ==> after == (HandoffModel {
                owner: HandoffOwner::Other,
                last_request: Some(now),
                repaused: Seq::empty(),
                ..m
            })
            &&& !counts ==> after == (HandoffModel { owner: after.owner, ..m })
        }),
{
    reveal(step);
    lemma_giving_up(
        false,
        HandoffEventKind::Yielded,
        if another_sounds(m) {
            Some((m.audio_source->0).0)
        } else {
            None
        },
        m,
    );
}

/// Another host that asks for the audio gets it wherever switching is on, dump
/// or not; asked again, a player that plays is paused again. A message of this
/// host, or one that asks for nothing, is nothing.
pub proof fn a_request_gives_the_audio_up(
    m: HandoffModel,
    sender: Address,
    requests_yield: bool,
    now: Instant,
)
    ensures
        ({
            let (after, actions) = step(m, Event::SmartRouting { sender, requests_yield }, now);
            let asked = requests_yield && m.local != Some(sender);
            &&& !asked ==> (after, actions) == (m, Seq::<ActionModel>::empty())
            &&& asked ==> after.owner == HandoffOwner::Other && same_setup(m, after)
            &&& asked && !m.enabled ==> actions.len() == 0 && after == (HandoffModel {
                owner: HandoffOwner::Other,
                ..m
            })
            &&& asked && m.enabled && !m.released ==> actions == giving_up(
                m,
                true,
                HandoffEventKind::YieldRequested,
                Some(sender),
            ) && gave_up(m, after, now)
            &&& asked && m.enabled && m.released ==> {
                &&& after.released && after.held && after.hold_from == Some(now)
                    && after.last_request == Some(now) && after.play_edge is None
                &&& actions == (if m.playing == Some(true) {
                    seq![ActionModel::RepausePlayer { player: m.playing_player }]
                } else {
                    Seq::empty()
                })
                &&& after.repaused == (if m.playing == Some(true) {
                    seq![m.playing_player]
                } else {
                    Seq::empty()
                })
            }
        }),
{
    reveal(step);
    lemma_giving_up(true, HandoffEventKind::YieldRequested, Some(sender), m);
    let (after, actions) = step(m, Event::SmartRouting { sender, requests_yield }, now);
    if requests_yield && m.local != Some(sender) && m.enabled && m.released && m.playing == Some(
        true,
    ) {
        assert(after.repaused =~= seq![m.playing_player]);
    }
}

/// The user's own commands take and give the audio whatever the settings are.
pub proof fn commands_are_obeyed(m: HandoffModel, now: Instant)
    ensures
        step(m, Event::TakeOver, now).1 == taking(m),
        took(m, step(m, Event::TakeOver, now).0, now),
        same_setup(m, step(m, Event::TakeOver, now).0),
        step(m, Event::Yield, now).1 == giving_up(m, true, HandoffEventKind::Yielded, None),
        gave_up(m, step(m, Event::Yield, now).0, now),
        same_setup(m, step(m, Event::Yield, now).0),
{
    reveal(step);
    lemma_taking(m);
    lemma_giving_up(true, HandoffEventKind::Yielded, None, m);
}

// ---------------------------------------------------------------------------
// The link and its reports
// ---------------------------------------------------------------------------

/// A link that opens or closes starts from nothing reported; what the user
/// plays with and the settings stay.
pub proof fn a_link_starts_from_nothing(m: HandoffModel, now: Instant, open: bool)
    ensures
        ({
            let (after, actions) = step(
                m,
                if open {
                    Event::LinkOpened
                } else {
                    Event::LinkClosed
                },
                now,
            );
            &&& actions.len() == 0
            &&& same_setup(m, after)
            &&& after.link_up == open
            &&& after.opened_at == (if open {
                Some(now)
            } else {
                None
            })
            &&& !after.opening_settled
            &&& after.owner == HandoffOwner::Unknown && after.audio_source is None
                && after.devices.len() == 0
            &&& !after.released && !after.held && after.hold_from is None && after.last_request
                is None && after.repaused.len() == 0
            &&& after.playing is None && after.play_edge is None && after.stopped_at is None
            &&& after.took_over_at is None && after.stream_check is None && !after.reannounce
                && after.announced is None
            &&& after.playing_app == m.playing_app && after.playing_player == m.playing_player
                && after.last_play == m.last_play && after.transport_active == m.transport_active
                && after.audio_changed == m.audio_changed
        }),
{
    reveal(step);
}

/// The end of the dump and a change of the audio link are noted, and no more.
pub proof fn notes_are_taken(m: HandoffModel, now: Instant)
    ensures
        step(m, Event::OpeningSettled, now) == (
            HandoffModel { opening_settled: true, ..m },
            Seq::<ActionModel>::empty(),
        ),
        step(m, Event::AudioLinkChanged, now) == (
            HandoffModel { audio_changed: Some(now), ..m },
            Seq::<ActionModel>::empty(),
        ),
{
    reveal(step);
}

/// A list of hosts replaces the one before. Where this host has the audio and
/// switching is on, each host that joined is introduced, in order: told what
/// plays, then who this is. No other host is.
pub proof fn joining_hosts_are_introduced(m: HandoffModel, list: Vec<Address>, now: Instant)
    ensures
        ({
            let (after, actions) = step(m, Event::ConnectedDevices(list), now);
            let joined = list@.filter(|d: Address| m.local != Some(d) && !m.devices.contains(d));
            let welcome = m.enabled && !dumping(m, now) && m.owner == HandoffOwner::Local && m.local
                is Some;
            &&& after == (HandoffModel { devices: list@, ..m })
            &&& !welcome ==> actions.len() == 0
            &&& welcome ==> actions.len() == 2 * joined.len() && forall|i: int|
                0 <= i < joined.len() ==> actions[2 * i] == (ActionModel::SendNewDeviceMediaInfo {
                    target: #[trigger] joined[i],
                }) && actions[2 * i + 1] == (ActionModel::SendNewTipi { target: joined[i] })
        }),
{
    reveal(step);
    lemma_joined(m.local, m.devices, list@);
    lemma_introductions(joined_hosts(m.local, m.devices, list@));
}

proof fn lemma_joined(local: Option<Address>, known: Seq<Address>, list: Seq<Address>)
    ensures
        joined_hosts(local, known, list) == list.filter(
            |d: Address| local != Some(d) && !known.contains(d),
        ),
    decreases list.len(),
{
    reveal(Seq::filter);
    if list.len() > 0 {
        lemma_joined(local, known, list.drop_last());
    }
}

proof fn lemma_introductions(hosts: Seq<Address>)
    ensures
        introductions(hosts).len() == 2 * hosts.len(),
        forall|i: int|
            0 <= i < hosts.len() ==> introductions(hosts)[2 * i] == (
            ActionModel::SendNewDeviceMediaInfo { target: #[trigger] hosts[i] }) && introductions(
                hosts,
            )[2 * i + 1] == (ActionModel::SendNewTipi { target: hosts[i] }),
    decreases hosts.len(),
{
    if hosts.len() > 0 {
        let head = hosts.drop_last();
        lemma_introductions(head);
        assert forall|i: int| 0 <= i < hosts.len() implies introductions(hosts)[2 * i] == (
        ActionModel::SendNewDeviceMediaInfo { target: #[trigger] hosts[i] }) && introductions(
            hosts,
        )[2 * i + 1] == (ActionModel::SendNewTipi { target: hosts[i] }) by {
            if i < head.len() {
                assert(head[i] == hosts[i]);
                assert(introductions(hosts)[2 * i] == introductions(head)[2 * i]);
                assert(introductions(hosts)[2 * i + 1] == introductions(head)[2 * i + 1]);
            }
        }
    }
}

// ---------------------------------------------------------------------------
// Local playback
// ---------------------------------------------------------------------------

/// A player that starts within two and a half seconds of this host's pause, or
/// of a change of the audio link, while held, resumed itself; it is paused
/// again, once for each request. Any other start may be the user's. A first
/// reading is no start, and a stop is noted with its time.
pub proof fn a_start_is_the_users_or_a_players(
    m: HandoffModel,
    playing: bool,
    app: Option<String>,
    player: Option<String>,
    now: Instant,
)
    ensures
        ({
            let (after, actions) = step(m, Event::Playback { playing, app, player }, now);
            let started = m.playing == Some(false) && playing;
            let stopped = m.playing == Some(true) && !playing;
            let itself = m.held && (since_less(m.hold_from, now, 2_500_000_000) || since_less(
                m.audio_changed,
                now,
                2_500_000_000,
            )) && !m.repaused.contains(after.playing_player);
            let say = started && !itself && m.enabled && m.link_up && has_audio(m)
                && m.transport_active == Some(true) && m.announced == Some(false);
            &&& actions == (if started && itself {
                seq![ActionModel::RepausePlayer { player: after.playing_player }]
            } else if say {
                told(after, true)
            } else {
                Seq::empty()
            })
            &&& same_setup(m, after)
            &&& after.playing == Some(playing)
            &&& after.playing_app == (if app is Some {
                text_view(app)
            } else {
                m.playing_app
            })
            &&& after.playing_player == (if player is Some {
                text_view(player)
            } else {
                m.playing_player
            })
            &&& after.last_play == (if playing || m.playing == Some(true) {
                Some(now)
            } else {
                m.last_play
            })
            &&& after.play_edge == (if started && !itself {
                Some(now)
            } else if started || stopped {
                None
            } else {
                m.play_edge
            })
            &&& after.stopped_at == (if stopped {
                Some(now)
            } else if started && !itself {
                None
            } else {
                m.stopped_at
            })
            &&& after.repaused == (if started && itself {
                m.repaused.push(after.playing_player)
            } else {
                m.repaused
            })
            &&& after.hold_from == (if started && itself {
                Some(now)
            } else {
                m.hold_from
            })
            &&& after.announced == (if say {
                Some(true)
            } else {
                m.announced
            })
            &&& after.held == m.held && after.released == m.released && after.owner == m.owner
                && after.last_request == m.last_request && after.devices == m.devices
                && after.audio_source == m.audio_source && after.link_up == m.link_up
                && after.stream_check == m.stream_check && after.reannounce == m.reannounce
                && after.took_over_at == m.took_over_at
        }),
{
    reveal(step);
    let (after, actions) = step(m, Event::Playback { playing, app, player }, now);
    lemma_told(after, true);
    assert(told(after, true) == crate::handoff::media_infos(after.others(), true, after.app()));
}

/// A transport that starts to run while this host has the audio is said once
/// more where the take-over asked for it, or where a player plays and the
/// hosts were told that nothing streams.
pub proof fn a_running_transport_is_said(m: HandoffModel, active: bool, now: Instant)
    ensures
        ({
            let (after, actions) = step(m, Event::A2dpTransport { active }, now);
            let starts = active && m.transport_active != Some(true) && m.link_up && has_audio(m);
            let say = starts && (m.reannounce || (m.enabled && m.playing == Some(true)
                && m.announced == Some(false)));
            &&& actions == (if say {
                told(m, true)
            } else {
                Seq::empty()
            })
            &&& after == (HandoffModel {
                transport_active: Some(active),
                stream_check: if starts {
                    None
                } else {
                    m.stream_check
                },
                reannounce: m.reannounce && !starts,
                announced: if say {
                    Some(true)
                } else {
                    m.announced
                },
                ..m
            })
        }),
{
    reveal(step);
    lemma_told(m, true);
    let m2 = HandoffModel {
        transport_active: Some(active),
        stream_check: None,
        reannounce: false,
        ..m
    };
    lemma_told(m2, true);
    assert(told(m2, true) =~= told(m, true)) by {
        assert(listed(m2) == listed(m));
    }
}

// ---------------------------------------------------------------------------
// The tick
// ---------------------------------------------------------------------------

/// A take-over without a stream is due to be reported.
pub open spec fn silence_due(m: HandoffModel, now: Instant) -> bool {
    m.stream_check is Some && now >= m.stream_check->0 && m.link_up && has_audio(m)
        && m.transport_active == Some(false) && (m.playing == Some(true) || m.play_edge is Some
        || since_less(m.last_play, now, 3_000_000_000))
}

/// Playback has stayed stopped for three seconds, and no take-over is younger
/// than eight.
pub open spec fn stop_due(m: HandoffModel, now: Instant) -> bool {
    m.stopped_at is Some && m.playing == Some(false) && age(now, m.stopped_at->0) >= 3_000_000_000
        && !since_less(m.took_over_at, now, 8_000_000_000)
}

/// The user's play has lasted a second and a half.
pub open spec fn play_due(m: HandoffModel, now: Instant) -> bool {
    m.play_edge is Some && age(now, m.play_edge->0) >= 1_500_000_000
}

/// The user's play takes the audio: switching and taking over are on, the link
/// is up, this host knows itself, no other host is in a call, and the audio is
/// elsewhere, whether it was given up, reported so, or sounds there.
pub open spec fn play_takes(m: HandoffModel, now: Instant) -> bool {
    play_due(m, now) && m.playing == Some(true) && m.enabled && m.take_over_on_play && m.link_up
        && m.local is Some && !another_calls(m) && (m.released || m.owner == HandoffOwner::Other
        || another_sounds(m))
}

proof fn lemma_stream(m: HandoffModel, now: Instant)
    ensures
        stream_tick(m, now).1 == (if silence_due(m, now) {
            seq![ActionModel::StreamNotStarted]
        } else {
            Seq::empty()
        }),
        stream_tick(m, now).0 == (HandoffModel {
            stream_check: if m.stream_check is Some && now >= m.stream_check->0 {
                None
            } else {
                m.stream_check
            },
            ..m
        }),
{
}

proof fn lemma_stop(m: HandoffModel, now: Instant)
    ensures
        stop_tick(m, now).1 == (if stop_due(m, now) && m.enabled && m.link_up && has_audio(m)
            && m.announced != Some(false) {
            told(m, false)
        } else {
            Seq::empty()
        }),
        stop_tick(m, now).0 == (HandoffModel {
            stopped_at: if stop_due(m, now) || m.playing != Some(false) {
                None
            } else {
                m.stopped_at
            },
            announced: if stop_due(m, now) && m.enabled && m.link_up && has_audio(m) && m.announced
                != Some(false) {
                Some(false)
            } else {
                m.announced
            },
            ..m
        }),
{
    let m1 = HandoffModel { stopped_at: None, ..m };
    lemma_told(m1, false);
    assert(told(m1, false) =~= told(m, false)) by {
        assert(listed(m1) == listed(m));
    }
}

proof fn lemma_play(m: HandoffModel, now: Instant)
    ensures
        play_tick(m, now).1 == (if play_takes(m, now) {
            taking(m)
        } else {
            Seq::empty()
        }),
        play_takes(m, now) ==> took(m, play_tick(m, now).0, now),
        !play_takes(m, now) ==> play_tick(m, now).0 == (HandoffModel {
            play_edge: if play_due(m, now) {
                None
            } else {
                m.play_edge
            },
            held: m.held && !(play_due(m, now) && m.playing == Some(true)),
            ..m
        }),
        same_setup(m, play_tick(m, now).0),
        ({
            let after = play_tick(m, now).0;
            after.playing == m.playing && after.devices == m.devices && after.audio_source
                == m.audio_source && after.link_up == m.link_up && after.repaused == m.repaused
                && after.last_request == m.last_request && after.opened_at == m.opened_at
                && after.opening_settled == m.opening_settled && after.last_play == m.last_play
                && after.transport_active == m.transport_active
        }),
{
    let m2 = HandoffModel { play_edge: None, held: false, ..m };
    lemma_taking(m2);
    assert(taking(m2) =~= taking(m)) by {
        assert(listed(m2) == listed(m));
    }
}

proof fn lemma_tick(m: HandoffModel, now: Instant)
    ensures
        ({
            let (after, actions) = step(m, Event::Tick, now);
            let quiet = if silence_due(m, now) {
                seq![ActionModel::StreamNotStarted]
            } else {
                Seq::empty()
            };
            let stop = if stop_due(m, now) && m.enabled && m.link_up && has_audio(m) && m.announced
                != Some(false) {
                told(m, false)
            } else {
                Seq::empty()
            };
            let take = if play_takes(m, now) {
                taking(m)
            } else {
                Seq::empty()
            };
            let m1 = stream_tick(m, now).0;
            let m2 = stop_tick(m1, now).0;
            &&& actions == quiet + stop + take
            &&& after == play_tick(m2, now).0
        }),
        ({
            let m1 = stream_tick(m, now).0;
            let m2 = stop_tick(m1, now).0;
            let after = step(m, Event::Tick, now).0;
            &&& same_setup(m, m2) && m2.playing == m.playing && m2.devices == m.devices
                && m2.audio_source == m.audio_source && m2.link_up == m.link_up && m2.repaused
                == m.repaused && m2.last_request == m.last_request && m2.opened_at == m.opened_at
                && m2.opening_settled == m.opening_settled && m2.last_play == m.last_play
                && m2.transport_active == m.transport_active && m2.owner == m.owner && m2.released
                == m.released && m2.held == m.held && m2.play_edge == m.play_edge
                && m2.took_over_at == m.took_over_at && m2.reannounce == m.reannounce
                && m2.hold_from == m.hold_from
            &&& m2.stream_check == m1.stream_check
            &&& m1.stream_check == (if m.stream_check is Some && now >= m.stream_check->0 {
                None
            } else {
                m.stream_check
            })
            &&& play_takes(m2, now) == play_takes(m, now)
            &&& play_due(m2, now) == play_due(m, now)
            &&& stop_due(m1, now) == stop_due(m, now)
            &&& m2.stopped_at == (if stop_due(m, now) || m.playing != Some(false) {
                None
            } else {
                m.stopped_at
            })
            &&& m2.announced == (if stop_due(m, now) && m.enabled && m.link_up && has_audio(m)
                && m.announced != Some(false) {
                Some(false)
            } else {
                m.announced
            })
            &&& play_takes(m, now) ==> took(m2, after, now)
            &&& !play_takes(m, now) ==> after == (HandoffModel {
                play_edge: if play_due(m, now) {
                    None
                } else {
                    m.play_edge
                },
                held: m.held && !(play_due(m, now) && m.playing == Some(true)),
                ..m2
            })
            &&& same_setup(m2, after) && after.playing == m2.playing && after.devices == m2.devices
                && after.audio_source == m2.audio_source && after.link_up == m2.link_up
                && after.repaused == m2.repaused && after.last_request == m2.last_request
                && after.opened_at == m2.opened_at && after.opening_settled == m2.opening_settled
                && after.last_play == m2.last_play && after.transport_active == m2.transport_active
        }),
{
    let m1 = stream_tick(m, now).0;
    let m2 = stop_tick(m1, now).0;
    lemma_stream(m, now);
    lemma_stop(m1, now);
    lemma_play(m2, now);
    assert(told(m1, false) =~= told(m, false)) by {
        assert(listed(m1) == listed(m));
    }
    assert(taking(m2) =~= taking(m)) by {
        assert(listed(m2) == listed(m));
        assert(told(m2, true) =~= told(m, true));
    }
    assert(step(m, Event::Tick, now) == on_tick(m, now)) by {
        reveal(step);
    }
    assert(on_tick(m, now) == (
        play_tick(m2, now).0,
        stream_tick(m, now).1 + stop_tick(m1, now).1 + play_tick(m2, now).1,
    )) by {
        reveal(on_tick);
    }
}

/// A tick does three things and no more: it reports a take-over that stayed
/// silent, tells the hosts that playback stopped, and takes the audio for a
/// play that lasted.
pub proof fn a_tick_does_what_is_due(m: HandoffModel, now: Instant)
    ensures
        ({
            let (after, actions) = step(m, Event::Tick, now);
            let quiet = if silence_due(m, now) {
                seq![ActionModel::StreamNotStarted]
            } else {
                Seq::empty()
            };
            let stop = if stop_due(m, now) && m.enabled && m.link_up && has_audio(m) && m.announced
                != Some(false) {
                told(m, false)
            } else {
                Seq::empty()
            };
            let take = if play_takes(m, now) {
                taking(m)
            } else {
                Seq::empty()
            };
            actions == quiet + stop + take
        }),
{
    lemma_tick(m, now);
}

/// A play that lasted while the audio was elsewhere takes it, whether this
/// host gave it up or never had it on this link.
pub proof fn the_users_play_takes_the_audio(m: HandoffModel, now: Instant)
    requires
        m.enabled,
        m.take_over_on_play,
        m.link_up,
        m.local is Some,
        m.playing == Some(true),
        m.play_edge is Some,
        age(now, m.play_edge->0) >= 1_500_000_000,
        !another_calls(m),
        m.released || m.owner == HandoffOwner::Other || another_sounds(m),
    ensures
        step(m, Event::Tick, now).1.contains(ActionModel::SendOwnership(true)),
        step(m, Event::Tick, now).1.contains(ActionModel::SetAudioRoute(RouteMode::Own)),
        step(m, Event::Tick, now).1.contains(ActionModel::ClaimAudio),
        forall|i: int|
            0 <= i < listed(m).len() ==> step(m, Event::Tick, now).1.contains(
                ActionModel::SendHijack { target: #[trigger] listed(m)[i] },
            ),
        step(m, Event::Tick, now).0.owner == HandoffOwner::Local,
        !step(m, Event::Tick, now).0.released,
{
    lemma_tick(m, now);
    a_tick_settles_what_was_due(m, now);
    let actions = step(m, Event::Tick, now).1;
    let quiet = if silence_due(m, now) {
        seq![ActionModel::StreamNotStarted]
    } else {
        Seq::<ActionModel>::empty()
    };
    let n = quiet.len() as int;
    let t = taking(m);
    assert(actions =~= quiet + t);
    let k = listed(m).len() as int;
    assert(t[0] == ActionModel::SetAudioRoute(RouteMode::Own));
    assert(t[1] == ActionModel::SendOwnership(true));
    assert(t[2 + 2 * k] == ActionModel::ClaimAudio);
    assert(actions[n] == t[0] && actions[n + 1] == t[1] && actions[n + 2 + 2 * k] == t[2 + 2 * k]);
    assert forall|i: int| 0 <= i < k implies actions.contains(
        ActionModel::SendHijack { target: #[trigger] listed(m)[i] },
    ) by {
        assert(t[2 + k + i] == (ActionModel::SendHijack { target: listed(m)[i] }));
        assert(actions[n + 2 + k + i] == t[2 + k + i]);
    }
}

/// What a tick leaves: what was due is settled, and the rest waits.
pub proof fn a_tick_settles_what_was_due(m: HandoffModel, now: Instant)
    ensures
        ({
            let after = step(m, Event::Tick, now).0;
            &&& same_setup(m, after)
            &&& play_takes(m, now) ==> took(m, after, now)
            &&& !play_takes(m, now) ==> {
                &&& after.owner == m.owner && after.released == m.released
                &&& after.held == (m.held && !(play_due(m, now) && m.playing == Some(true)))
                &&& after.play_edge == (if play_due(m, now) {
                    None
                } else {
                    m.play_edge
                })
                &&& after.stream_check == (if m.stream_check is Some && now >= m.stream_check->0 {
                    None
                } else {
                    m.stream_check
                })
                &&& after.stopped_at == (if stop_due(m, now) || m.playing != Some(false) {
                    None
                } else {
                    m.stopped_at
                })
                &&& after.announced == (if stop_due(m, now) && m.enabled && m.link_up && has_audio(
                    m,
                ) && m.announced != Some(false) {
                    Some(false)
                } else {
                    m.announced
                })
                &&& after.took_over_at == m.took_over_at && after.reannounce == m.reannounce
            }
            &&& after.playing == m.playing && after.devices == m.devices && after.audio_source
                == m.audio_source && after.link_up == m.link_up && after.repaused == m.repaused
                && after.last_request == m.last_request && after.opened_at == m.opened_at
                && after.opening_settled == m.opening_settled && after.last_play == m.last_play
                && after.transport_active == m.transport_active
        }),
{
    lemma_tick(m, now);
}

// ---------------------------------------------------------------------------
// What is published
// ---------------------------------------------------------------------------

/// A section shows the switch, the owner, the source, each host and the latest
/// handoff as they are, and which hosts are this one.
pub proof fn a_section_shows_the_state(h: Handoff, m: HandoffModel, i: int)
    requires
        publishes(h, m),
    ensures
        h.enabled == m.enabled,
        h.take_over_on_play == m.take_over_on_play,
        h.apple_host_id == m.apple_host_id,
        h.owner == m.owner,
        h.audio_source is Some <==> m.audio_source is Some,
        h.audio_source is Some ==> {
            &&& h.audio_source->0.address@ == (m.audio_source->0).0.text()
            &&& h.audio_source->0.is_local <==> m.local == Some((m.audio_source->0).0)
            &&& h.audio_source->0.state == (m.audio_source->0).1
        },
        h.devices@.len() == m.devices.len(),
        0 <= i < m.devices.len() ==> h.devices@[i].address@ == m.devices[i].text() && (
        h.devices@[i].is_local <==> m.local == Some(m.devices[i])),
        h.last_event is Some <==> m.last_event is Some,
        h.last_event is Some ==> {
            &&& h.last_event->0.kind == m.last_event->0.kind
            &&& h.last_event->0.at@ == m.last_event->0.at
            &&& text_view(h.last_event->0.peer) == m.last_event->0.peer
        },
{
}

/// Before anything is reported the audio has no known owner, nothing was given
/// up or held, nothing plays and no link is up.
pub proof fn a_fresh_machine_knows_nothing(enabled: bool, take_over_on_play: bool)
    ensures
        ({
            let m = HandoffModel::fresh(enabled, take_over_on_play);
            &&& m.enabled == enabled && m.take_over_on_play == take_over_on_play
            &&& m.owner == HandoffOwner::Unknown && !m.released && !m.held && !m.link_up
            &&& m.local is None && m.audio_source is None && m.devices.len() == 0
            &&& m.apple_host_id is None && m.last_event is None
            &&& m.playing is None && m.playing_app is None && m.playing_player is None
            &&& m.play_edge is None && m.last_play is None && m.stopped_at is None
            &&& m.transport_active is None && m.took_over_at is None && m.stream_check is None
            &&& m.hold_from is None && m.opened_at is None && m.last_request is None
            &&& m.audio_changed is None && m.announced is None && !m.reannounce
            &&& !m.opening_settled && m.repaused.len() == 0
        }),
{
}

} // verus!
