//! What the published state shows of what was reported.
use crate::aap::codec::{BatteryComponent, BatteryEntry, Metadata};
use crate::address::Address;
use crate::config::PrimaryBud;
use crate::models::{known_model, lookup_key};
use crate::settings::SettingCommand;
use crate::state::{
    BatteryModel, CellModel, DeviceModel, EarState, Handoff, LinkStatus, NoiseControl,
    NoiseControlMode, SnapshotModel, Source,
};
use crate::store::{battery_heard, rfc3339_micros, LinkActivity, StoreModel, Update, Wanted, Write};
use vstd::prelude::*;
use vstd::string::*;

verus! {

// ---------------------------------------------------------------------------
// Battery
// ---------------------------------------------------------------------------

/// The cell of a component. Only the buds and the case have one.
pub open spec fn cell_at(b: BatteryModel, c: BatteryComponent) -> CellModel {
    match c {
        BatteryComponent::Left => b.left,
        BatteryComponent::Right => b.right,
        _ => b.case,
    }
}

/// A component with a published cell.
pub open spec fn published(c: BatteryComponent) -> bool {
    c == BatteryComponent::Left || c == BatteryComponent::Right || c == BatteryComponent::Case
}

/// The entry at `i` is the last one about its component.
pub open spec fn last_about(entries: Seq<BatteryEntry>, i: int) -> bool {
    &&& 0 <= i < entries.len()
    &&& forall|j: int|
        i < j < entries.len() ==> (#[trigger] entries[j]).component != entries[i].component
}

/// Some entry gives the level of a published cell.
pub open spec fn levels_some_cell(entries: Seq<BatteryEntry>) -> bool {
    exists|i: int|
        0 <= i < entries.len() && published((#[trigger] entries[i]).component) && entries[i].level
            is Some
}

/// A cell shows what its last entry says. With a level it is current from then
/// on; without one the level last reported stays.
pub proof fn a_cell_shows_its_last_entry(
    b: BatteryModel,
    entries: Seq<BatteryEntry>,
    stamp: Seq<char>,
    i: int,
)
    requires
        last_about(entries, i),
        published(entries[i].component),
    ensures
        ({
            let e = entries[i];
            let after = cell_at(battery_heard(b, entries, stamp), e.component);
            let before = cell_at(battery_heard(b, entries.take(i), stamp), e.component);
            &&& after.present == e.present
            &&& after.charging == e.charging
            &&& e.level is Some ==> after.level == e.level && after.last_known_charging == Some(
                e.charging,
            ) && after.fresh && after.last_seen == Some(stamp)
            &&& e.level is None ==> after.level == before.level && after.last_known_charging
                == before.last_known_charging && after.fresh == before.fresh && after.last_seen
                == before.last_seen
        }),
    decreases entries.len(),
{
    let front = entries.drop_last();
    if i < entries.len() - 1 {
        assert(front[i] == entries[i]);
        assert(last_about(front, i)) by {
            assert forall|j: int| i < j < front.len() implies (#[trigger] front[j]).component
                != front[i].component by {
                assert(front[j] == entries[j]);
            }
        }
        assert(front.take(i) =~= entries.take(i));
        a_cell_shows_its_last_entry(b, front, stamp, i);
        assert(entries[entries.len() - 1].component != entries[i].component);
    } else {
        assert(entries.take(i) =~= front);
    }
}

/// A cell that no entry is about stays as it was.
pub proof fn an_unmentioned_cell_stays(
    b: BatteryModel,
    entries: Seq<BatteryEntry>,
    stamp: Seq<char>,
    c: BatteryComponent,
)
    requires
        published(c),
        forall|i: int| 0 <= i < entries.len() ==> (#[trigger] entries[i]).component != c,
    ensures
        cell_at(battery_heard(b, entries, stamp), c) == cell_at(b, c),
    decreases entries.len(),
{
    if entries.len() > 0 {
        let front = entries.drop_last();
        assert forall|i: int| 0 <= i < front.len() implies (#[trigger] front[i]).component
            != c by {
            assert(front[i] == entries[i]);
        }
        an_unmentioned_cell_stays(b, front, stamp, c);
        assert(entries[entries.len() - 1].component != c);
    }
}

/// Readings are current once the level of a cell was heard, and only then.
pub proof fn a_level_makes_readings_current(
    b: BatteryModel,
    entries: Seq<BatteryEntry>,
    stamp: Seq<char>,
)
    ensures
        battery_heard(b, entries, stamp).stale == (b.stale && !levels_some_cell(entries)),
    decreases entries.len(),
{
    if entries.len() > 0 {
        let front = entries.drop_last();
        a_level_makes_readings_current(b, front, stamp);
        let last = entries[entries.len() - 1];
        if levels_some_cell(front) {
            let i = choose|i: int|
                0 <= i < front.len() && published((#[trigger] front[i]).component)
                    && front[i].level is Some;
            assert(entries[i] == front[i]);
            assert(levels_some_cell(entries));
        } else if published(last.component) && last.level is Some {
            assert(levels_some_cell(entries));
        } else {
            assert forall|i: int| 0 <= i < entries.len() implies !(published(
                (#[trigger] entries[i]).component,
            ) && entries[i].level is Some) by {
                if i < front.len() {
                    assert(front[i] == entries[i]);
                }
            }
        }
    }
}

/// A battery packet changes the battery section, by its entries, and nothing
/// else.
pub proof fn a_battery_packet_is_shown(m: StoreModel, entries: Vec<BatteryEntry>, stamp: Seq<char>)
    ensures
        ({
            let after = m.applied(Update::Battery(entries), stamp);
            &&& after.shown.battery == battery_heard(m.shown.battery, entries@, stamp)
            &&& after == (StoreModel {
                shown: SnapshotModel { battery: after.shown.battery, ..m.shown },
                ..m
            })
        }),
{
}

/// The levels of an advert are shown exactly when it is from the selected
/// accessory. They name adverts as the source only without an AAP link.
pub proof fn an_advert_is_shown(
    m: StoreModel,
    address: String,
    entries: Vec<BatteryEntry>,
    stamp: Seq<char>,
)
    ensures
        ({
            let after = m.applied(Update::BleBattery { address, entries }, stamp);
            &&& after == (StoreModel {
                shown: SnapshotModel {
                    battery: after.shown.battery,
                    daemon: after.shown.daemon,
                    ..m.shown
                },
                ..m
            })
            &&& if address@ == m.shown.device.address {
                &&& after.shown.battery == battery_heard(m.shown.battery, entries@, stamp)
                &&& after.shown.daemon.source == (if m.shown.device.aap_link {
                    m.shown.daemon.source
                } else {
                    Source::Ble
                })
            } else {
                after == m
            }
        }),
{
}

/// An advert's reading is past when it was heard before the limit, or never. A
/// limit that is no timestamp makes nothing past.
pub open spec fn past(c: CellModel, before: Seq<char>) -> bool {
    &&& rfc3339_micros(before) is Some
    &&& (c.last_seen is None || rfc3339_micros(c.last_seen->0) is None || rfc3339_micros(
        c.last_seen->0,
    )->0 < rfc3339_micros(before)->0)
}

/// A cell after adverts expired: a past one no longer reports, but what it
/// last said stays; any other one stays as it was.
pub open spec fn expires_to(old: CellModel, new: CellModel, before: Seq<char>) -> bool {
    if past(old, before) {
        &&& !new.present && !new.fresh && !new.charging
        &&& new.level == old.level && new.last_seen == old.last_seen && new.last_known_charging
            == old.last_known_charging
    } else {
        new == old
    }
}

/// Old adverts expire cell by cell, and only where adverts are the source.
/// Once no cell is current there is no source left.
pub proof fn old_adverts_expire(m: StoreModel, before: String, stamp: Seq<char>)
    ensures
        ({
            let after = m.applied(Update::ExpireBle { before }, stamp);
            let b = m.shown.battery;
            let a = after.shown.battery;
            if m.shown.daemon.source == Source::Ble {
                &&& expires_to(b.left, a.left, before@)
                &&& expires_to(b.right, a.right, before@)
                &&& expires_to(b.case, a.case, before@)
                &&& a.stale == !(a.left.fresh || a.right.fresh || a.case.fresh)
                &&& after.shown.daemon.source == (if a.left.fresh || a.right.fresh
                    || a.case.fresh {
                    Source::Ble
                } else {
                    Source::Nowhere
                })
                &&& after == (StoreModel {
                    shown: SnapshotModel { battery: a, daemon: after.shown.daemon, ..m.shown },
                    ..m
                })
            } else {
                after == m
            }
        }),
{
}

// ---------------------------------------------------------------------------
// Links and identity
// ---------------------------------------------------------------------------

/// The AAP link decides the source. When it goes down no cell reports any
/// longer; when it comes up the battery stays as it was.
pub proof fn the_aap_link_is_shown(m: StoreModel, up: bool, stamp: Seq<char>)
    ensures
        ({
            let after = m.applied(Update::AapLink(up), stamp);
            let a = after.shown.battery;
            &&& after.shown.device == (DeviceModel { aap_link: up, ..m.shown.device })
            &&& after.shown.daemon.source == (if up {
                Source::Aap
            } else {
                Source::Nowhere
            })
            &&& up ==> a == m.shown.battery
            &&& !up ==> a.stale && !a.left.charging && !a.right.charging && !a.case.charging
                && !a.left.present && !a.right.present && !a.case.present && !a.left.fresh
                && !a.right.fresh && !a.case.fresh
            &&& after == (StoreModel {
                shown: SnapshotModel {
                    device: after.shown.device,
                    daemon: after.shown.daemon,
                    battery: a,
                    ..m.shown
                },
                ..m
            })
        }),
{
}

/// The link section shows the classic link, and below it the sequence under
/// way.
pub open spec fn link_shown(s: SnapshotModel, connected: bool, activity: Option<LinkActivity>)
    -> bool {
    &&& s.link.status == LinkStatus::Connected <==> connected
    &&& s.link.status == LinkStatus::Reconnecting <==> !connected && activity is Some
    &&& s.link.status == LinkStatus::Disconnected <==> !connected && activity is None
    &&& s.link.reason == (if !connected && activity is Some {
        Some(activity->0.reason)
    } else {
        None
    })
    &&& s.link.attempt == (if !connected && activity is Some {
        activity->0.attempt
    } else {
        0
    })
    &&& s.link.since == (if !connected && activity is Some {
        Some(activity->0.since@)
    } else {
        None
    })
}

/// A classic link that comes up or goes down is shown, over any sequence.
pub proof fn the_classic_link_is_shown(m: StoreModel, up: bool, stamp: Seq<char>)
    ensures
        ({
            let after = m.applied(Update::AclConnected(up), stamp);
            &&& after.shown.device == (DeviceModel { connected: up, ..m.shown.device })
            &&& link_shown(after.shown, up, m.activity)
            &&& after == (StoreModel {
                shown: SnapshotModel {
                    device: after.shown.device,
                    link: after.shown.link,
                    ..m.shown
                },
                ..m
            })
        }),
{
}

/// A sequence is remembered, and shown while the classic link is down.
pub proof fn a_sequence_is_shown(m: StoreModel, activity: Option<LinkActivity>, stamp: Seq<char>)
    ensures
        ({
            let after = m.applied(Update::Link(activity), stamp);
            &&& after.activity == activity
            &&& link_shown(after.shown, m.shown.device.connected, activity)
            &&& after == (StoreModel {
                shown: SnapshotModel { link: after.shown.link, ..m.shown },
                activity,
                ..m
            })
        }),
{
}

/// An identity gives the address, and the name and product id it knows. The
/// model is looked up from a product id that came with it.
pub proof fn an_identity_is_shown(
    m: StoreModel,
    address: Address,
    name: Option<String>,
    model_id: Option<String>,
    stamp: Seq<char>,
)
    ensures
        ({
            let after = m.applied(Update::Identity { address, name, model_id }, stamp);
            let d = after.shown.device;
            &&& d.address == address.text()
            &&& name is Some ==> d.name == name->0@
            &&& name is None ==> d.name == m.shown.device.name
            &&& model_id is Some ==> d.model_id == model_id->0@ && d.model == known_model(
                lookup_key(model_id->0@),
            )
            &&& model_id is None ==> d.model_id == m.shown.device.model_id && d.model
                == m.shown.device.model
            &&& d.connected == m.shown.device.connected && d.aap_link == m.shown.device.aap_link
            &&& after == (StoreModel { shown: SnapshotModel { device: d, ..m.shown }, ..m })
        }),
{
}

// ---------------------------------------------------------------------------
// Reports
// ---------------------------------------------------------------------------

/// The primary bud is on the configured side. With no side configured it is
/// the left one, unless that one charges and the right one is out.
pub proof fn buds_are_shown_by_side(
    m: StoreModel,
    primary: EarState,
    secondary: EarState,
    stamp: Seq<char>,
)
    ensures
        ({
            let after = m.applied(Update::Ear { primary, secondary }, stamp);
            let ear = after.shown.ear;
            let left = m.shown.battery.left;
            let right = m.shown.battery.right;
            &&& m.bud == PrimaryBud::Left ==> ear.left == primary && ear.right == secondary
            &&& m.bud == PrimaryBud::Right ==> ear.left == secondary && ear.right == primary
            &&& m.bud == PrimaryBud::Auto && left.charging && right.present && !right.charging
                ==> ear.left == secondary && ear.right == primary
            &&& m.bud == PrimaryBud::Auto && (!left.charging || !right.present || right.charging)
                ==> ear.left == primary && ear.right == secondary
            &&& after == (StoreModel { shown: SnapshotModel { ear, ..m.shown }, ..m })
        }),
{
}

/// A reported control value is shown as it is.
pub proof fn controls_are_shown(
    m: StoreModel,
    mode: NoiseControlMode,
    on: bool,
    level: u8,
    handoff: Handoff,
    stamp: Seq<char>,
)
    ensures
        ({
            let a = m.applied(Update::NoiseControl(mode), stamp);
            let shown = a.shown.noise_control;
            &&& shown == NoiseControl::Off <==> mode == NoiseControlMode::Off
            &&& shown == NoiseControl::Anc <==> mode == NoiseControlMode::Anc
            &&& shown == NoiseControl::Transparency <==> mode == NoiseControlMode::Transparency
            &&& shown == NoiseControl::Adaptive <==> mode == NoiseControlMode::Adaptive
            &&& a == (StoreModel {
                shown: SnapshotModel { noise_control: shown, ..m.shown },
                ..m
            })
        }),
        m.applied(Update::ConversationalAwareness(on), stamp) == (StoreModel {
            shown: SnapshotModel { conversational_awareness: Some(on), ..m.shown },
            ..m
        }),
        m.applied(Update::AdaptiveLevel(level), stamp) == (StoreModel {
            shown: SnapshotModel { adaptive_level: Some(level), ..m.shown },
            ..m
        }),
        m.applied(Update::Handoff(handoff), stamp) == (StoreModel {
            shown: SnapshotModel { handoff, ..m.shown },
            ..m
        }),
{
}

/// A reported setting is shown as it is, the others stay, and every write of
/// the same key counts as heard of.
pub proof fn a_reported_setting_is_shown(m: StoreModel, setting: SettingCommand, stamp: Seq<char>)
    ensures
        ({
            let after = m.applied(Update::Setting(setting), stamp);
            let s = after.shown.settings;
            let o = m.shown.settings;
            &&& s.microphone == (match setting {
                SettingCommand::Microphone(v) => Some(v),
                _ => o.microphone,
            })
            &&& s.press_speed == (match setting {
                SettingCommand::PressSpeed(v) => Some(v),
                _ => o.press_speed,
            })
            &&& s.hold_duration == (match setting {
                SettingCommand::HoldDuration(v) => Some(v),
                _ => o.hold_duration,
            })
            &&& s.listening_mode_cycle == (match setting {
                SettingCommand::ListeningModeCycle(v) => Some(v),
                _ => o.listening_mode_cycle,
            })
            &&& s.call_controls == (match setting {
                SettingCommand::CallControls(v) => Some(v),
                _ => o.call_controls,
            })
            &&& s.personalized_volume == (match setting {
                SettingCommand::PersonalizedVolume(v) => Some(v),
                _ => o.personalized_volume,
            })
            &&& after == (StoreModel {
                shown: SnapshotModel { settings: s, ..m.shown },
                writes: after.writes,
                ..m
            })
            &&& heard_of(m.writes, after.writes, setting@.key())
        }),
{
}

/// The same writes, those of one key heard of.
pub open spec fn heard_of(before: Seq<Write>, after: Seq<Write>, key: Seq<char>) -> bool {
    &&& after.len() == before.len()
    &&& forall|i: int|
        0 <= i < before.len() ==> (#[trigger] after[i]).wanted == before[i].wanted
            && after[i].heard == (before[i].heard || before[i].wanted.key_text() == key)
}

/// A name in the metadata is shown, and a rename counts as heard of. Metadata
/// without a name changes nothing.
pub proof fn a_reported_name_is_shown(m: StoreModel, metadata: Metadata, stamp: Seq<char>)
    ensures
        ({
            let after = m.applied(Update::Metadata(metadata), stamp);
            &&& metadata.name is None ==> after == m
            &&& metadata.name is Some ==> after.shown == (SnapshotModel {
                device: DeviceModel { name: metadata.name->0@, ..m.shown.device },
                ..m.shown
            }) && heard_of(m.writes, after.writes, "name"@) && after.activity == m.activity
                && after.bud == m.bud
        }),
{
}

// ---------------------------------------------------------------------------
// Writes
// ---------------------------------------------------------------------------

/// Every key is told from every other one.
pub proof fn each_setting_has_its_key(a: Wanted, b: Wanted)
    ensures
        a.key_text() == b.key_text() <==> (match (a, b) {
            (Wanted::Name(_), Wanted::Name(_)) => true,
            (Wanted::Setting(x), Wanted::Setting(y)) => {
                ||| x is Microphone && y is Microphone
                ||| x is PressSpeed && y is PressSpeed
                ||| x is HoldDuration && y is HoldDuration
                ||| x is ListeningModeCycle && y is ListeningModeCycle
                ||| x is CallControls && y is CallControls
                ||| x is PersonalizedVolume && y is PersonalizedVolume
            },
            _ => false,
        }),
{
    reveal_strlit("name");
    reveal_strlit("microphone");
    reveal_strlit("press_speed");
    reveal_strlit("hold_duration");
    reveal_strlit("listening_mode_cycle");
    reveal_strlit("call_controls");
    reveal_strlit("personalized_volume");
    assert("name"@.len() == 4);
    assert("microphone"@.len() == 10);
    assert("press_speed"@.len() == 11);
    assert("hold_duration"@.len() == 13 && "hold_duration"@[0] == 'h');
    assert("call_controls"@.len() == 13 && "call_controls"@[0] == 'c');
    assert("listening_mode_cycle"@.len() == 20);
    assert("personalized_volume"@.len() == 19);
}

/// What was written is what is published now.
pub open spec fn says(s: SnapshotModel, wanted: Wanted) -> bool {
    match wanted {
        Wanted::Name(name) => s.device.name == name@,
        Wanted::Setting(SettingCommand::Microphone(v)) => s.settings.microphone == Some(v),
        Wanted::Setting(SettingCommand::PressSpeed(v)) => s.settings.press_speed == Some(v),
        Wanted::Setting(SettingCommand::HoldDuration(v)) => s.settings.hold_duration == Some(v),
        Wanted::Setting(SettingCommand::CallControls(v)) => s.settings.call_controls == Some(v),
        Wanted::Setting(SettingCommand::PersonalizedVolume(v)) => s.settings.personalized_volume
            == Some(v),
        Wanted::Setting(SettingCommand::ListeningModeCycle(v)) => {
            &&& s.settings.listening_mode_cycle is Some
            &&& forall|mode: NoiseControlMode|
                s.settings.listening_mode_cycle->0@.contains(mode) <==> #[trigger] v@.contains(mode)
        },
    }
}

/// A write awaits its readback from then on, and no earlier write of the same
/// key does any longer. Nothing else that is published changes.
pub proof fn a_write_awaits_its_readback(m: StoreModel, wanted: Wanted, stamp: Seq<char>)
    ensures
        ({
            let after = match wanted {
                Wanted::Setting(setting) => m.applied(Update::SettingRequested(setting), stamp),
                Wanted::Name(name) => m.applied(Update::RenameRequested(name), stamp),
            };
            let key = wanted.key_text();
            &&& after.writes.len() > 0
            &&& after.writes.last() == (Write { wanted, heard: false })
            &&& after.writes.drop_last() == m.writes.filter(
                |w: Write| w.wanted.key_text() != key,
            )
            &&& after.shown.settings_status == m.shown.settings_status.insert(key, "verifying"@)
            &&& after.shown.settings_verify == "verifying"@
            &&& after == (StoreModel {
                shown: SnapshotModel {
                    settings_status: after.shown.settings_status,
                    settings_verify: after.shown.settings_verify,
                    ..m.shown
                },
                writes: after.writes,
                ..m
            })
        }),
{
    let key = wanted.key_text();
    lemma_others_are_a_filter(m.writes, key);
    let after = m.wrote(wanted);
    assert(after.writes.drop_last() =~= crate::store::others(m.writes, key));
}

proof fn lemma_others_are_a_filter(writes: Seq<Write>, key: Seq<char>)
    ensures
        crate::store::others(writes, key) == writes.filter(
            |w: Write| w.wanted.key_text() != key,
        ),
    decreases writes.len(),
{
    reveal(Seq::filter);
    if writes.len() > 0 {
        lemma_others_are_a_filter(writes.drop_last(), key);
    }
}

/// A reopening for the readback is shown, and what was heard of the writes
/// counts no longer.
pub proof fn a_reopening_starts_over(m: StoreModel, stamp: Seq<char>)
    ensures
        ({
            let after = m.applied(Update::VerifyReopening, stamp);
            &&& after.shown == (SnapshotModel { verify_reopen: true, ..m.shown })
            &&& after.writes.len() == m.writes.len()
            &&& forall|i: int|
                0 <= i < m.writes.len() ==> (#[trigger] after.writes[i]).wanted
                    == m.writes[i].wanted && !after.writes[i].heard
            &&& after.activity == m.activity && after.bud == m.bud
        }),
{
}

/// No later write has the key of the one at `i`.
pub open spec fn last_write(writes: Seq<Write>, i: int) -> bool {
    &&& 0 <= i < writes.len()
    &&& forall|j: int|
        i < j < writes.len() ==> (#[trigger] writes[j]).wanted.key_text()
            != writes[i].wanted.key_text()
}

/// When the readback ends nothing is awaited any longer. A dump that did not
/// finish leaves a write unverified; a finished one confirms it when the
/// accessory reported what was written, says mismatch when it reported
/// something else, and unreported when it said nothing.
pub proof fn a_readback_judges_each_write(m: StoreModel, completed: bool, stamp: Seq<char>, i: int)
    requires
        last_write(m.writes, i),
    ensures
        ({
            let after = if completed {
                m.applied(Update::VerifyCompleted, stamp)
            } else {
                m.applied(Update::VerifyFailed, stamp)
            };
            let w = m.writes[i];
            let status = after.shown.settings_status;
            &&& status.contains_key(w.wanted.key_text())
            &&& status[w.wanted.key_text()] == (if !completed {
                "unverified"@
            } else if !w.heard {
                "unreported"@
            } else if says(m.shown, w.wanted) {
                "confirmed"@
            } else {
                "mismatch"@
            })
        }),
{
    lemma_judged(m.shown.settings_status, m.writes, m.shown, completed, i);
    lemma_kept_is_said(m.shown, m.writes[i].wanted);
}

/// A readback that ends leaves nothing awaited, and changes no status but
/// those of the writes.
pub proof fn a_readback_ends(m: StoreModel, completed: bool, stamp: Seq<char>, key: Seq<char>)
    requires
        forall|i: int|
            0 <= i < m.writes.len() ==> (#[trigger] m.writes[i]).wanted.key_text() != key,
    ensures
        ({
            let after = if completed {
                m.applied(Update::VerifyCompleted, stamp)
            } else {
                m.applied(Update::VerifyFailed, stamp)
            };
            let status = after.shown.settings_status;
            &&& after.writes.len() == 0
            &&& after.shown.settings_verify == "idle"@
            &&& !after.shown.verify_reopen
            &&& status.contains_key(key) == m.shown.settings_status.contains_key(key)
            &&& status.contains_key(key) ==> status[key] == m.shown.settings_status[key]
            &&& after == (StoreModel {
                shown: SnapshotModel {
                    settings_status: status,
                    settings_verify: after.shown.settings_verify,
                    verify_reopen: after.shown.verify_reopen,
                    ..m.shown
                },
                writes: after.writes,
                ..m
            })
        }),
{
    lemma_unjudged(m.shown.settings_status, m.writes, m.shown, completed, key);
}

proof fn lemma_kept_is_said(s: SnapshotModel, wanted: Wanted)
    ensures
        crate::store::kept(wanted, s) == says(s, wanted),
{
}

proof fn lemma_judged(
    status: Map<Seq<char>, Seq<char>>,
    writes: Seq<Write>,
    s: SnapshotModel,
    completed: bool,
    i: int,
)
    requires
        last_write(writes, i),
    ensures
        crate::store::judged(status, writes, s, completed).contains_pair(
            writes[i].wanted.key_text(),
            crate::store::verdict(writes[i], s, completed),
        ),
    decreases writes.len(),
{
    let front = writes.drop_last();
    if i < writes.len() - 1 {
        assert(front[i] == writes[i]);
        assert(last_write(front, i)) by {
            assert forall|j: int| i < j < front.len() implies (
            #[trigger] front[j]).wanted.key_text() != front[i].wanted.key_text() by {
                assert(front[j] == writes[j]);
            }
        }
        lemma_judged(status, front, s, completed, i);
        assert(writes[writes.len() - 1].wanted.key_text() != writes[i].wanted.key_text());
    }
}

proof fn lemma_unjudged(
    status: Map<Seq<char>, Seq<char>>,
    writes: Seq<Write>,
    s: SnapshotModel,
    completed: bool,
    key: Seq<char>,
)
    requires
        forall|i: int|
            0 <= i < writes.len() ==> (#[trigger] writes[i]).wanted.key_text() != key,
    ensures
        ({
            let after = crate::store::judged(status, writes, s, completed);
            &&& after.contains_key(key) == status.contains_key(key)
            &&& after.contains_key(key) ==> after[key] == status[key]
        }),
    decreases writes.len(),
{
    if writes.len() > 0 {
        let front = writes.drop_last();
        assert forall|i: int| 0 <= i < front.len() implies (
        #[trigger] front[i]).wanted.key_text() != key by {
            assert(front[i] == writes[i]);
        }
        lemma_unjudged(status, front, s, completed, key);
        assert(writes[writes.len() - 1].wanted.key_text() != key);
    }
}

} // verus!
