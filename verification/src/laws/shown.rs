//! What the command line asks for and says.
use crate::cli::{
    battery_line, cell_text, concluded, device_line, event_line, flag_text, host_list, kind_word,
    mode_list, no_readback, noise_line, noise_word, one_line, owner_word, reported, route_lines,
    setting_asked, setting_line, settings_lines, source_word, status_word, switch_lines,
    value_text, OutcomeModel, Reported,
};
use crate::settings::{setting_named, JsonModel, SettingModel};
use crate::state::{
    AudioSourceStatus, Cell, Handoff, HandoffDevice, HandoffEventKind, HandoffOwner, NoiseControl,
    NoiseControlMode, Settings, Snapshot, Source,
};
use crate::text::decimal;
use vstd::prelude::*;
use vstd::string::*;

verus! {

// ---------------------------------------------------------------------------
// Asking
// ---------------------------------------------------------------------------

/// A setting is asked for when its value is JSON, names a setting together
/// with its key, and may be written; otherwise the first of these that fails
/// is said.
pub proof fn which_settings_are_asked_for(
    key: Seq<char>,
    fault: Option<Seq<char>>,
    value: JsonModel,
    unread: Seq<char>,
)
    ensures
        ({
            let r = setting_asked(key, fault, value, unread);
            let named = setting_named(key, value);
            &&& fault is Some ==> r == Err::<SettingModel, Seq<char>>(
                "invalid JSON value for "@ + key + ": "@ + fault->0,
            )
            &&& fault is None && named is None ==> r == Err::<SettingModel, Seq<char>>(
                "invalid setting: "@ + unread,
            )
            &&& fault is None && (named matches Some(s) && !s.writable()) ==> r == Err::<
                SettingModel,
                Seq<char>,
            >(named->0.refusal())
            &&& fault is None && (named matches Some(s) && s.writable()) ==> r == Ok::<
                SettingModel,
                Seq<char>,
            >(named->0)
        }),
{
}

// ---------------------------------------------------------------------------
// Outcomes
// ---------------------------------------------------------------------------

/// A write that the accessory kept or never reports succeeds, one that it
/// overruled or that was not verified fails, and each says so.
pub proof fn outcomes_are_said(value: Seq<char>)
    ensures
        OutcomeModel::Confirmed.said() == "confirmed by AirPods"@,
        OutcomeModel::Confirmed.code() == 0,
        OutcomeModel::Kept(value).said() == "AirPods kept "@ + value,
        OutcomeModel::Kept(value).code() == 1,
        OutcomeModel::Unreported.said()
            == "applied; AirPods 4 (ANC) never reports this setting back"@,
        OutcomeModel::Unreported.code() == 0,
        OutcomeModel::Unverified(value).said() == "sent but not verified: "@ + value,
        OutcomeModel::Unverified(value).code() == 1,
        OutcomeModel::Legacy.said() == "sent; waiting for AirPods to report the setting"@,
        OutcomeModel::Legacy.code() == 0,
{
}

/// A published status is an answer once it is no longer awaited; which one,
/// its word says. A daemon without readbacks gives no other answer than that.
pub proof fn a_status_is_an_answer(s: Snapshot, key: Seq<char>)
    ensures
        s.settings_api < 2 ==> concluded(s, key) == Some(OutcomeModel::Legacy),
        s.settings_api >= 2 && !s.settings_status@.contains_key(key) ==> concluded(s, key) is None,
        s.settings_api >= 2 && s.settings_status@.contains_key(key) ==> {
            let status = s.settings_status@[key];
            &&& status == "verifying"@ ==> concluded(s, key) is None
            &&& status == "confirmed"@ ==> concluded(s, key) == Some(OutcomeModel::Confirmed)
            &&& status == "mismatch"@ ==> concluded(s, key) == Some(
                OutcomeModel::Kept(value_text(s, key)),
            )
            &&& status == "unreported"@ ==> concluded(s, key) == Some(OutcomeModel::Unreported)
            &&& status == "unverified"@ ==> concluded(s, key) == Some(
                OutcomeModel::Unverified(no_readback(s)),
            )
            &&& status != "verifying"@ && status != "confirmed"@ && status != "mismatch"@ && status
                != "unreported"@ && status != "unverified"@ ==> concluded(s, key) == Some(
                OutcomeModel::Unverified("the daemon reported an unknown status "@ + status),
            )
        },
{
    reveal_strlit("confirmed");
    reveal_strlit("unverified");
    reveal_strlit("unreported");
    reveal_strlit("mismatch");
    reveal_strlit("verifying");
    assert("confirmed"@.len() == 9 && "confirmed"@[0] == 'c');
    assert("verifying"@.len() == 9 && "verifying"@[0] == 'v');
    assert("unverified"@.len() == 10 && "unverified"@[2] == 'v');
    assert("unreported"@.len() == 10 && "unreported"@[2] == 'r');
    assert("mismatch"@.len() == 8);
}

/// Why there was no readback: no classic link, no AAP link, or no answer.
pub proof fn a_missing_readback_has_a_reason(s: Snapshot)
    ensures
        !s.device.connected ==> no_readback(s) == "the AirPods disconnected"@,
        s.device.connected && !s.device.aap_link ==> no_readback(s)
            == "the AAP link could not be reopened"@,
        s.device.connected && s.device.aap_link ==> no_readback(s)
            == "the AirPods did not report the setting back in time"@,
{
}

/// The value kept instead is the one that is published.
pub proof fn a_kept_value_is_the_published_one(s: Snapshot, key: Seq<char>)
    ensures
        key == "name"@ && s.device.name@.len() > 0 ==> value_text(s, key) == s.device.name@,
        key == "name"@ && s.device.name@.len() == 0 ==> value_text(s, key) == "a different name"@,
        key != "name"@ ==> value_text(s, key) == (match reported(s.settings, key) {
            Some(Reported::Word(word)) => word,
            Some(Reported::Json(text)) => text,
            None => "a different value"@,
        }),
{
}

/// What is reported under each key is that setting's value, and nothing is
/// reported under any other one.
pub proof fn reported_values_are_the_settings(s: Settings, key: Seq<char>)
    ensures
        reported(s, "microphone"@) == (match s.microphone {
            Some(v) => Some(Reported::Word(v.word())),
            None => None,
        }),
        reported(s, "press_speed"@) == (match s.press_speed {
            Some(v) => Some(Reported::Word(v.word())),
            None => None,
        }),
        reported(s, "hold_duration"@) == (match s.hold_duration {
            Some(v) => Some(Reported::Word(v.word())),
            None => None,
        }),
        reported(s, "listening_mode_cycle"@) == (match s.listening_mode_cycle {
            Some(modes) => Some(Reported::Json("["@ + mode_list(modes@) + "]"@)),
            None => None,
        }),
        reported(s, "call_controls"@) == (match s.call_controls {
            Some(v) => Some(Reported::Word(v.word())),
            None => None,
        }),
        s.personalized_volume == Some(true) ==> reported(s, "personalized_volume"@) == Some(
            Reported::Json("true"@),
        ),
        s.personalized_volume == Some(false) ==> reported(s, "personalized_volume"@) == Some(
            Reported::Json("false"@),
        ),
        s.personalized_volume is None ==> reported(s, "personalized_volume"@) is None,
        key != "microphone"@ && key != "press_speed"@ && key != "hold_duration"@ && key
            != "listening_mode_cycle"@ && key != "call_controls"@ && key != "personalized_volume"@
            ==> reported(s, key) is None,
{
    reveal_strlit("microphone");
    reveal_strlit("press_speed");
    reveal_strlit("hold_duration");
    reveal_strlit("listening_mode_cycle");
    reveal_strlit("call_controls");
    reveal_strlit("personalized_volume");
    assert("microphone"@.len() == 10);
    assert("press_speed"@.len() == 11);
    assert("hold_duration"@.len() == 13 && "hold_duration"@[0] == 'h');
    assert("call_controls"@.len() == 13 && "call_controls"@[0] == 'c');
    assert("listening_mode_cycle"@.len() == 20);
    assert("personalized_volume"@.len() == 19);
}

/// Listed modes are quoted words with commas between them.
pub proof fn listed_modes_are_their_words(modes: Seq<NoiseControlMode>, mode: NoiseControlMode)
    ensures
        mode_list(Seq::empty()).len() == 0,
        mode_list(seq![mode]) == "\""@ + mode.word() + "\""@,
        modes.len() > 0 ==> mode_list(modes.push(mode)) == mode_list(modes) + ","@ + ("\""@
            + mode.word() + "\""@),
{
    assert(modes.push(mode).drop_last() =~= modes);
}

// ---------------------------------------------------------------------------
// The summary
// ---------------------------------------------------------------------------

/// A cell shows its level while it reports one, and whether it charges; a cell
/// that reports none shows dashes.
pub proof fn a_cell_shows_its_level(label: Seq<char>, c: Cell)
    ensures
        c.present && c.level is Some && c.charging ==> cell_text(label, c) == label + " "@
            + decimal(c.level->0 as nat) + "% (charging)"@,
        c.present && c.level is Some && !c.charging ==> cell_text(label, c) == label + " "@
            + decimal(c.level->0 as nat) + "%"@,
        !c.present || c.level is None ==> cell_text(label, c) == label + " --"@,
{
    reveal_strlit("%");
    reveal_strlit(" (charging)");
    reveal_strlit("% (charging)");
    reveal_strlit("");
    assert(""@ =~= Seq::empty());
    let head = label + " "@ + decimal(c.level->0 as nat);
    if c.present && c.level is Some {
        if c.charging {
            assert("%"@ + " (charging)"@ =~= "% (charging)"@);
            assert(head + "%"@ + " (charging)"@ =~= head + "% (charging)"@);
        } else {
            assert(head + "%"@ + ""@ =~= head + "%"@);
        }
    }
}

/// Which accessory a summary is of.
pub open spec fn accessory(s: Snapshot) -> Seq<char> {
    (if s.device.name@.len() > 0 {
        s.device.name@
    } else {
        "AirPods"@
    }) + " ["@ + (if s.device.model is Some {
        s.device.model->0@
    } else {
        "unknown model"@
    }) + "] "@ + (if s.device.address@.len() > 0 {
        s.device.address@
    } else {
        "no device"@
    }) + ": "@
}

/// The first line says which accessory it is and which links are up.
pub proof fn a_device_shows_its_links(s: Snapshot)
    ensures
        !s.device.connected ==> device_line(s) == accessory(s) + "disconnected"@ + "\n"@,
        s.device.connected && s.device.aap_link ==> device_line(s) == accessory(s) + "connected"@
            + "\n"@,
        s.device.connected && !s.device.aap_link ==> device_line(s) == accessory(s)
            + "connected (no AAP link)"@ + "\n"@,
{
}

/// Each part of the summary shows its own value: left, right and case in this
/// order, readings of an earlier link marked, mode and source by their words.
pub proof fn a_summary_shows_each_value(s: Snapshot)
    ensures
        s.battery.stale ==> battery_line(s) == "battery: "@ + cell_text("L"@, s.battery.left)
            + "  "@ + cell_text("R"@, s.battery.right) + "  "@ + cell_text("case"@, s.battery.case)
            + "  (last known)"@ + "\n"@,
        !s.battery.stale ==> battery_line(s) == "battery: "@ + cell_text("L"@, s.battery.left)
            + "  "@ + cell_text("R"@, s.battery.right) + "  "@ + cell_text("case"@, s.battery.case)
            + "\n"@,
        noise_line(s) == "noise: "@ + noise_word(s.noise_control) + "   source: "@ + source_word(
            s.daemon.source,
        ) + "\n"@,
        noise_word(NoiseControl::Off) == "off"@,
        noise_word(NoiseControl::Anc) == "anc"@,
        noise_word(NoiseControl::Transparency) == "transparency"@,
        noise_word(NoiseControl::Adaptive) == "adaptive"@,
        noise_word(NoiseControl::Unknown) == "unknown"@,
        source_word(Source::Aap) == "aap"@,
        source_word(Source::Ble) == "ble"@,
        source_word(Source::Nowhere) == "none"@,
{
    reveal_strlit("");
    assert(""@ =~= Seq::empty());
    if !s.battery.stale {
        let cells = "battery: "@ + cell_text("L"@, s.battery.left) + "  "@ + cell_text(
            "R"@,
            s.battery.right,
        ) + "  "@ + cell_text("case"@, s.battery.case);
        assert(cells + ""@ =~= cells);
    }
}

/// The settings are listed by their keys, quoted where they are words, and
/// `unknown` where nothing was reported.
pub proof fn settings_are_listed(s: Snapshot, key: Seq<char>)
    ensures
        s.settings_api == 0 ==> settings_lines(s) == "settings: unavailable (older daemon)\n"@,
        s.settings_api != 0 ==> settings_lines(s) == "settings:"@ + setting_line(
            s.settings,
            "microphone"@,
        ) + setting_line(s.settings, "press_speed"@) + setting_line(s.settings, "hold_duration"@)
            + setting_line(s.settings, "listening_mode_cycle"@) + setting_line(
            s.settings,
            "call_controls"@,
        ) + setting_line(s.settings, "personalized_volume"@) + "\n"@,
        reported(s.settings, key) is None ==> setting_line(s.settings, key) == "\n  "@ + key
            + ": "@ + "unknown"@,
        reported(s.settings, key) matches Some(Reported::Word(word)) ==> setting_line(
            s.settings,
            key,
        ) == "\n  "@ + key + ": "@ + ("\""@ + word + "\""@),
        reported(s.settings, key) matches Some(Reported::Json(text)) ==> setting_line(
            s.settings,
            key,
        ) == "\n  "@ + key + ": "@ + text,
{
}

// ---------------------------------------------------------------------------
// The handoff summary
// ---------------------------------------------------------------------------

/// Hosts are listed with commas between them, each with its place.
pub proof fn listed_hosts_have_their_place(devices: Seq<HandoffDevice>, d: HandoffDevice)
    ensures
        ({
            let host = if d.is_local {
                d.address@ + " ("@ + "this host"@ + ")"@
            } else {
                d.address@ + " ("@ + "other host"@ + ")"@
            };
            &&& host_list(seq![d]) == host
            &&& devices.len() > 0 ==> host_list(devices.push(d)) == host_list(devices) + ", "@
                + host
        }),
        host_list(Seq::empty()).len() == 0,
{
    assert(devices.push(d).drop_last() =~= devices);
    let host = d.address@ + " ("@ + crate::cli::place(d.is_local) + ")"@;
    assert(host_list(seq![d]) =~= host);
    if devices.len() > 0 {
        assert(host_list(devices.push(d)) =~= host_list(devices) + ", "@ + host);
    }
}

/// The switch shows whether it is on, whether playing takes the audio over,
/// and whether the adapter passes for Apple's.
pub proof fn the_switch_is_shown(h: Handoff)
    ensures
        ({
            let on = if h.enabled {
                "on"@
            } else {
                "off"@
            };
            let play = if h.take_over_on_play {
                "yes"@
            } else {
                "no"@
            };
            let id = if h.apple_host_id is None {
                "unknown"@
            } else if h.apple_host_id->0 {
                "yes"@
            } else {
                "no (set DeviceID = bluetooth:004C:0000:0000 and re-pair)"@
            };
            switch_lines(h) == "handoff: "@ + on + " (take over on play: "@ + play + ")\n"@
                + "apple device id: "@ + id + "\n"@
        }),
{
}

/// The audio's owner, its source and the hosts are shown, each by its words.
pub proof fn the_route_is_shown(h: Handoff)
    ensures
        ({
            let owner = "owner: "@ + owner_word(h.owner) + "\n"@;
            let source = if h.audio_source is Some {
                "audio source: "@ + h.audio_source->0.address@ + " ("@ + (
                if h.audio_source->0.is_local {
                    "this host"@
                } else {
                    "other host"@
                }) + ") "@ + status_word(h.audio_source->0.state) + "\n"@
            } else {
                "audio source: unknown\n"@
            };
            &&& h.devices@.len() == 0 ==> route_lines(h) == owner + source + "devices: "@
                + "none"@ + "\n"@
            &&& h.devices@.len() > 0 ==> route_lines(h) == owner + source + "devices: "@
                + host_list(h.devices@) + "\n"@
        }),
        owner_word(HandoffOwner::Local) == "local"@,
        owner_word(HandoffOwner::Other) == "other"@,
        owner_word(HandoffOwner::Unknown) == "unknown"@,
        status_word(AudioSourceStatus::Idle) == "idle"@,
        status_word(AudioSourceStatus::Call) == "call"@,
        status_word(AudioSourceStatus::Media) == "media"@,
{
}

/// The latest handoff is shown with its time, and its peer where it has one.
pub proof fn the_latest_handoff_is_shown(h: Handoff)
    ensures
        h.last_event is None ==> event_line(h) == "last event: none\n"@,
        h.last_event matches Some(ev) ==> {
            let head = "last event: "@ + kind_word(ev.kind) + " at "@ + ev.at@;
            &&& ev.peer is Some ==> event_line(h) == head + (" (peer "@ + ev.peer->0@ + ")"@)
                + "\n"@
            &&& ev.peer is None ==> event_line(h) == head + "\n"@
        },
        kind_word(HandoffEventKind::Yielded) == "yielded"@,
        kind_word(HandoffEventKind::YieldRequested) == "yield_requested"@,
        kind_word(HandoffEventKind::TookOver) == "took_over"@,
{
    reveal_strlit("");
    assert(""@ =~= Seq::empty());
    if let Some(ev) = h.last_event {
        let head = "last event: "@ + kind_word(ev.kind) + " at "@ + ev.at@;
        assert(head + ""@ =~= head);
    }
}

/// A failure is told on one line: a space stands for each newline.
pub proof fn a_failure_is_one_line(text: Seq<char>)
    ensures
        one_line(text).len() == text.len(),
        forall|i: int|
            0 <= i < text.len() ==> #[trigger] one_line(text)[i] == (if text[i] == '\n' {
                ' '
            } else {
                text[i]
            }),
        flag_text(true) == "true"@,
        flag_text(false) == "false"@,
{
}

} // verus!
