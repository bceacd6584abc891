//! Which device is watched, when it is connected to, and what is said of its
//! audio.
use crate::bluez::{
    a2dp_streams, airpods_like, hands_free_streams, names_a2dp, names_apple, page_after,
    page_result, path_form, paths_differ, product_of, said_after, streams, transport_line,
    transport_lines, transport_set, transport_text, under, with_state, AudioNews, Candidate,
    Modalias, PageFact, PageModel, TransportModel,
};
use crate::models::hex_padded;
use crate::rejoin::Reason;
use crate::text::{joined, lines_sorted, lowered, occurs_in};
use vstd::prelude::*;
use vstd::string::*;

verus! {

// ---------------------------------------------------------------------------
// Which device
// ---------------------------------------------------------------------------

/// Apple is vendor 76 in the Bluetooth SIG's numbering, and in no other one.
pub proof fn apple_has_one_number(record: Modalias, product: u32)
    ensures
        names_apple(record) <==> record.source@ == "bluetooth"@ && record.vendor == 76,
        product_of(record.vendor, product) is Some <==> record.vendor == 76,
        record.vendor == 76 ==> product_of(record.vendor, product) == Some(
            hex_padded(product as nat, 4),
        ),
{
}

/// A device is taken for AirPods by its record or by its name, whatever the
/// other says.
pub proof fn airpods_are_known_by_record_or_name(c: Candidate)
    ensures
        c.modalias is Some && c.modalias->0.source@ == "bluetooth"@ && c.modalias->0.vendor == 76
            ==> airpods_like(c),
        c.name is Some && occurs_in(lowered(c.name->0@), "airpods"@) ==> airpods_like(c),
        airpods_like(c) ==> (c.modalias is Some && c.modalias->0.source@ == "bluetooth"@
            && c.modalias->0.vendor == 76) || (c.name is Some && occurs_in(
            lowered(c.name->0@),
            "airpods"@,
        )),
{
}

/// An address in a path has an underscore for each colon and is otherwise the
/// same.
pub proof fn a_path_has_no_colons(address: Seq<char>)
    ensures
        path_form(address).len() == address.len(),
        forall|i: int|
            0 <= i < address.len() ==> #[trigger] path_form(address)[i] == (if address[i]
                == ':' {
                '_'
            } else {
                address[i]
            }),
{
}

/// What BlueZ's reasons say.
pub proof fn reasons_have_their_names(name: Seq<char>)
    ensures
        Reason::of_name("org.bluez.Reason.Timeout"@) == Reason::Timeout,
        Reason::of_name("org.bluez.Reason.Local"@) == Reason::Local,
        Reason::of_name("org.bluez.Reason.Remote"@) == Reason::Remote,
        Reason::of_name("org.bluez.Reason.Authentication"@) == Reason::Authentication,
        Reason::of_name("org.bluez.Reason.Suspend"@) == Reason::Suspend,
        Reason::of_name(name) == Reason::Unknown <==> {
            &&& name != "org.bluez.Reason.Timeout"@
            &&& name != "org.bluez.Reason.Local"@
            &&& name != "org.bluez.Reason.Remote"@
            &&& name != "org.bluez.Reason.Authentication"@
            &&& name != "org.bluez.Reason.Suspend"@
        },
{
    reveal_strlit("org.bluez.Reason.Timeout");
    reveal_strlit("org.bluez.Reason.Local");
    reveal_strlit("org.bluez.Reason.Remote");
    reveal_strlit("org.bluez.Reason.Authentication");
    reveal_strlit("org.bluez.Reason.Suspend");
    assert("org.bluez.Reason.Timeout"@.len() == 24 && "org.bluez.Reason.Timeout"@[17] == 'T');
    assert("org.bluez.Reason.Local"@.len() == 22);
    assert("org.bluez.Reason.Remote"@.len() == 23);
    assert("org.bluez.Reason.Authentication"@.len() == 31);
    assert("org.bluez.Reason.Suspend"@.len() == 24 && "org.bluez.Reason.Suspend"@[17] == 'S');
}

// ---------------------------------------------------------------------------
// Connecting
// ---------------------------------------------------------------------------

/// A connect goes out when the adapter is powered, the device paired, not
/// blocked and not connected, and the connect still wanted. Otherwise the
/// first of these that fails, in this order, is the reason given.
pub proof fn a_connect_is_refused_for_the_first_reason(
    values: spec_fn(PageFact) -> bool,
    powered: bool,
    paired: bool,
    blocked: bool,
    connected: bool,
    wanted: bool,
)
    requires
        values(PageFact::Powered) == powered,
        values(PageFact::Paired) == paired,
        values(PageFact::Blocked) == blocked,
        values(PageFact::Connected) == connected,
        values(PageFact::Wanted) == wanted,
    ensures
        page_result(values, PageFact::Powered) == (if !powered {
            PageModel::Refuse("adapter_off"@)
        } else if !paired {
            PageModel::Refuse("not_paired"@)
        } else if blocked {
            PageModel::Refuse("blocked"@)
        } else if connected {
            PageModel::Refuse("connected_by_other_means"@)
        } else if !wanted {
            PageModel::Refuse("superseded"@)
        } else {
            PageModel::Connect
        }),
        page_after(PageFact::Wanted, true) == PageModel::Connect,
{
    reveal_with_fuel(page_result, 6);
}

// ---------------------------------------------------------------------------
// Transports
// ---------------------------------------------------------------------------

/// Stereo audio is told by the UUID of its source or sink, in any case, and a
/// stream by its state.
pub proof fn stereo_streams_are_told(uuid: Seq<char>, state: Seq<char>)
    ensures
        names_a2dp(uuid) <==> lowered(uuid) == "0000110a-0000-1000-8000-00805f9b34fb"@ || lowered(
            uuid,
        ) == "0000110b-0000-1000-8000-00805f9b34fb"@,
        streams(state) <==> state == "pending"@ || state == "active"@,
{
}

/// A path is below a prefix when it begins with it.
pub proof fn a_path_below_begins_alike(path: Option<&str>, prefix: Seq<char>)
    ensures
        under(path, prefix) <==> path is Some && path->0@.len() >= prefix.len() && path->0@.take(
            prefix.len() as int,
        ) == prefix,
{
    if path is Some && path->0@.len() >= prefix.len() {
        assert(path->0@.take(prefix.len() as int) =~= path->0@.subrange(0, prefix.len() as int));
    }
}

/// A transport that is set is known, in place of an earlier one at its path;
/// the others stay known.
pub proof fn a_set_transport_is_known(
    entries: Seq<TransportModel>,
    t: TransportModel,
    other: TransportModel,
)
    requires
        paths_differ(entries),
    ensures
        transport_set(entries, t).contains(other) <==> other == t || (entries.contains(other)
            && other.path != t.path),
        transport_set(entries, t).len() == entries.len() + (if exists|i: int|
            0 <= i < entries.len() && (#[trigger] entries[i]).path == t.path {
            0int
        } else {
            1
        }),
    decreases entries.len(),
{
    let set = transport_set(entries, t);
    if entries.len() == 0 {
        assert(set =~= seq![t]);
        assert(set[0] == t);
        if set.contains(other) {
            let k = set.index_of(other);
            assert(set[k] == t);
        }
    } else {
        let head = entries.drop_last();
        let last = entries.last();
        assert(paths_differ(head)) by {
            assert forall|i: int, j: int| 0 <= i < j < head.len() implies (
            #[trigger] head[i]).path != (#[trigger] head[j]).path by {
                assert(head[i] == entries[i] && head[j] == entries[j]);
            }
        }
        assert(entries =~= head.push(last));
        lemma_contains_push(head, last, other);
        if last.path == t.path {
            assert(set =~= head.push(t));
            lemma_contains_push(head, t, other);
            if head.contains(other) {
                let k = head.index_of(other);
                assert(entries[k] == other);
                assert(entries[k].path != entries[entries.len() - 1].path);
            }
            assert(entries[entries.len() - 1].path == t.path);
        } else {
            a_set_transport_is_known(head, t, other);
            lemma_contains_push(transport_set(head, t), last, other);
            if exists|i: int| 0 <= i < entries.len() && (#[trigger] entries[i]).path == t.path {
                let i = choose|i: int|
                    0 <= i < entries.len() && (#[trigger] entries[i]).path == t.path;
                assert(head[i] == entries[i]);
            }
            if exists|i: int| 0 <= i < head.len() && (#[trigger] head[i]).path == t.path {
                let i = choose|i: int|
                    0 <= i < head.len() && (#[trigger] head[i]).path == t.path;
                assert(entries[i] == head[i]);
            }
        }
    }
}

proof fn lemma_contains_push(s: Seq<TransportModel>, last: TransportModel, other: TransportModel)
    ensures
        s.push(last).contains(other) <==> s.contains(other) || other == last,
{
    let all = s.push(last);
    if s.contains(other) {
        let k = s.index_of(other);
        assert(all[k] == other);
    }
    assert(all[s.len() as int] == last);
    if all.contains(other) {
        let k = all.index_of(other);
        if k < s.len() {
            assert(s[k] == other);
        }
    }
}

/// A changed state is the state of the transport at that path only.
pub proof fn a_state_is_of_one_transport(t: TransportModel, path: Seq<char>, active: bool)
    ensures
        ({
            let after = with_state(t, path, active);
            &&& after.path == t.path && after.uuid == t.uuid && after.a2dp == t.a2dp
            &&& t.path == path ==> after.active == active
            &&& t.path != path ==> after.active == t.active
        }),
{
}

/// A transport as it is told.
pub open spec fn told_as(t: TransportModel) -> Seq<char> {
    if t.active {
        t.path + " "@ + t.uuid + " streaming"@
    } else {
        t.path + " "@ + t.uuid + " idle"@
    }
}

proof fn lemma_told(t: TransportModel)
    ensures
        transport_line(t) == told_as(t),
{
    reveal_strlit(" ");
    reveal_strlit("streaming");
    reveal_strlit(" streaming");
    reveal_strlit("idle");
    reveal_strlit(" idle");
    assert(" "@ + "streaming"@ =~= " streaming"@);
    assert(" "@ + "idle"@ =~= " idle"@);
    assert(transport_line(t) =~= told_as(t));
}

/// All transports are told, or those that stream and are not stereo: one line
/// each, in order of the lines, and `none` where there are none.
pub proof fn transports_are_told(entries: Seq<TransportModel>, hands_free: bool)
    ensures
        ({
            let kept = if hands_free {
                entries.filter(|t: TransportModel| t.active && !t.a2dp)
            } else {
                entries
            };
            let lines = kept.map_values(|t: TransportModel| told_as(t));
            &&& kept.len() == 0 ==> transport_text(entries, hands_free) == "none"@
            &&& kept.len() > 0 ==> transport_text(entries, hands_free) == joined(
                lines_sorted(lines),
            )
        }),
{
    let kept = if hands_free {
        entries.filter(|t: TransportModel| t.active && !t.a2dp)
    } else {
        entries
    };
    lemma_lines(entries, hands_free);
    assert(transport_lines(entries, hands_free) =~= kept.map_values(
        |t: TransportModel| told_as(t),
    ));
}

proof fn lemma_lines(entries: Seq<TransportModel>, hands_free: bool)
    ensures
        transport_lines(entries, hands_free) == (if hands_free {
            entries.filter(|t: TransportModel| t.active && !t.a2dp)
        } else {
            entries
        }).map_values(|t: TransportModel| told_as(t)),
    decreases entries.len(),
{
    reveal(Seq::filter);
    let keep = |t: TransportModel| t.active && !t.a2dp;
    let tell = |t: TransportModel| told_as(t);
    if entries.len() == 0 {
        assert(transport_lines(entries, hands_free) =~= (if hands_free {
            entries.filter(keep)
        } else {
            entries
        }).map_values(tell));
    } else {
        let head = entries.drop_last();
        lemma_lines(head, hands_free);
        lemma_told(entries.last());
        let h = if hands_free {
            head.filter(keep)
        } else {
            head
        };
        let all = if hands_free {
            entries.filter(keep)
        } else {
            entries
        };
        if !hands_free {
            assert(all =~= h.push(entries.last()));
        }
        if !hands_free || keep(entries.last()) {
            assert(all == h.push(entries.last()));
            assert(all.map_values(tell) =~= h.map_values(tell).push(tell(entries.last())));
        }
    }
}

/// Audio streams on a kind of transport when one of that kind is active.
pub proof fn one_active_transport_streams(entries: Seq<TransportModel>, i: int)
    requires
        0 <= i < entries.len(),
        entries[i].active,
    ensures
        entries[i].a2dp ==> a2dp_streams(entries),
        !entries[i].a2dp ==> hands_free_streams(entries),
{
}

/// Where nothing is active, nothing streams.
pub proof fn idle_transports_stream_nothing(entries: Seq<TransportModel>, a2dp: bool)
    requires
        forall|i: int|
            0 <= i < entries.len() && (#[trigger] entries[i]).a2dp == a2dp ==> !entries[i].active,
    ensures
        a2dp ==> !a2dp_streams(entries),
        !a2dp ==> !hands_free_streams(entries),
{
}

/// A signal about audio objects is passed on; a change of the stereo stream is
/// said; and so is audio that has just landed on another transport. Nothing
/// else is said, and these in this order.
pub proof fn audio_news_are_said(
    relevant: bool,
    reported: bool,
    hands_free: bool,
    entries: Seq<TransportModel>,
)
    ensures
        ({
            let said = said_after(relevant, reported, hands_free, entries);
            let stereo = a2dp_streams(entries) != reported;
            let landed = hands_free_streams(entries) && !hands_free;
            let first: int = if relevant {
                1
            } else {
                0
            };
            let second: int = if stereo {
                first + 1
            } else {
                first
            };
            &&& said.len() == (if landed {
                second + 1
            } else {
                second
            })
            &&& relevant ==> said[0] == Some(AudioNews::Transport)
            &&& stereo ==> said[first] == Some(
                AudioNews::A2dp {
                    active: a2dp_streams(entries),
                    transports: transport_text(entries, false),
                },
            )
            &&& landed ==> said[second] == Some(
                AudioNews::HandsFree { transports: transport_text(entries, true) },
            )
        }),
{
}

} // verus!
