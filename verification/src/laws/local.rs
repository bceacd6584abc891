//! What is read from and written to this host: addresses, keys, files, lines
//! of requests, players and logs.
use crate::aap::codec::FeaturesVariant;
use crate::aap::session::{hex_text, staleness, variant_for};
use crate::aap::socket::SockaddrL2;
use crate::address::{address_from_text, Address};
use crate::ble::{
    bounded_radio, carries_hash, has_key_path, key_fault, key_of, prand_block, private_file,
    BleConfig, KeyFile,
};
use crate::cache::{absent, retains};
use crate::clock::{elapsed, within, Instant};
use crate::config::{edited, joined_path, usable, usable_bt_name, EditErrorModel, HandoffConfig};
use crate::ctl_server::{line_step, newline_at, LineModel};
use crate::mpris::{counted, plays, same_reading, PlaybackReading, Player};
use crate::state::{Battery, Cell};
use crate::store::{same_activity, same_context, ConnectionContext, LinkActivity};
use crate::text::{hex_below, hex_digit, hex_digit_lower, hex_number, split_at_mark, text_view};
use vstd::prelude::*;
use vstd::string::*;
use vstd::utf8::{encode_utf8, is_ascii_chars};

verus! {

// ---------------------------------------------------------------------------
// Clock
// ---------------------------------------------------------------------------

/// Time that has passed is never negative, and a window is open for less than
/// its length after a start.
pub proof fn time_passes(now: Instant, t: Instant, window: u128)
    ensures
        now >= t ==> elapsed(now, t) == now - t,
        now <= t ==> elapsed(now, t) == 0,
        within(Some(t), now, window) <==> super::age(now, t) < window,
        !within(None, now, window),
{
}

// ---------------------------------------------------------------------------
// Addresses
// ---------------------------------------------------------------------------

/// An address is written as six pairs of digits with colons between them.
pub proof fn an_address_is_written_in_pairs(a: Address)
    ensures
        ({
            let o = a.0@;
            a.text() == seq![
                hex_digit(o[0] as int / 16), hex_digit(o[0] as int % 16), ':',
                hex_digit(o[1] as int / 16), hex_digit(o[1] as int % 16), ':',
                hex_digit(o[2] as int / 16), hex_digit(o[2] as int % 16), ':',
                hex_digit(o[3] as int / 16), hex_digit(o[3] as int % 16), ':',
                hex_digit(o[4] as int / 16), hex_digit(o[4] as int % 16), ':',
                hex_digit(o[5] as int / 16), hex_digit(o[5] as int % 16),
            ]
        }),
{
    let o = a.0@;
    assert(o.len() == 6);
    assert(o.drop_last() =~= o.take(5));
    assert(o.take(5).drop_last() =~= o.take(4));
    assert(o.take(4).drop_last() =~= o.take(3));
    assert(o.take(3).drop_last() =~= o.take(2));
    assert(o.take(2).drop_last() =~= o.take(1));
    let t1 = crate::address::octets_text(o.take(1));
    assert(t1 == crate::address::hex_byte(o[0]));
    let t2 = crate::address::octets_text(o.take(2));
    assert(t2 == t1.push(':') + crate::address::hex_byte(o[1]));
    let t3 = crate::address::octets_text(o.take(3));
    assert(t3 == t2.push(':') + crate::address::hex_byte(o[2]));
    let t4 = crate::address::octets_text(o.take(4));
    assert(t4 == t3.push(':') + crate::address::hex_byte(o[3]));
    let t5 = crate::address::octets_text(o.take(5));
    assert(t5 == t4.push(':') + crate::address::hex_byte(o[4]));
    assert(a.text() == t5.push(':') + crate::address::hex_byte(o[5]));
    assert(a.text() =~= seq![
        hex_digit(o[0] as int / 16), hex_digit(o[0] as int % 16), ':',
        hex_digit(o[1] as int / 16), hex_digit(o[1] as int % 16), ':',
        hex_digit(o[2] as int / 16), hex_digit(o[2] as int % 16), ':',
        hex_digit(o[3] as int / 16), hex_digit(o[3] as int % 16), ':',
        hex_digit(o[4] as int / 16), hex_digit(o[4] as int % 16), ':',
        hex_digit(o[5] as int / 16), hex_digit(o[5] as int % 16),
    ]);
}

/// A text is an address when it has six parts between colons and each is a
/// number of one octet; the octets are then those numbers.
pub proof fn an_address_has_six_parts(text: Seq<char>, i: int)
    requires
        0 <= i < 6,
    ensures
        address_from_text(text) is Some ==> {
            &&& split_at_mark(text, ':').len() == 6
            &&& address_from_text(text)->0.len() == 6
            &&& hex_below(split_at_mark(text, ':')[i], 256) == Some(
                address_from_text(text)->0[i] as int,
            )
        },
        split_at_mark(text, ':').len() == 6 && (forall|k: int|
            0 <= k < 6 ==> hex_below(#[trigger] split_at_mark(text, ':')[k], 256) is Some)
            ==> address_from_text(text) is Some,
{
    if address_from_text(text) is Some {
        let parts = split_at_mark(text, ':');
        assert(hex_below(parts[i], 256) is Some);
        lemma_small(parts[i]);
    }
}

proof fn lemma_small(text: Seq<char>)
    ensures
        hex_below(text, 256) is Some ==> 0 <= hex_below(text, 256)->0 < 256,
{
    let digits = if text.len() > 0 && text[0] == '+' {
        text.skip(1)
    } else {
        text
    };
    lemma_not_negative(digits);
}

proof fn lemma_not_negative(digits: Seq<char>)
    ensures
        hex_number(digits) is Some ==> hex_number(digits)->0 >= 0,
    decreases digits.len(),
{
    if digits.len() > 0 {
        lemma_not_negative(digits.drop_last());
    }
}

/// A number below a limit has at least one digit, behind at most one plus
/// sign.
pub proof fn a_limited_number_has_digits(text: Seq<char>, limit: int, n: int)
    ensures
        text.len() > 0 && text[0] != '+' ==> (hex_below(text, limit) == Some(n) <==> hex_number(
            text,
        ) == Some(n) && n < limit),
        text.len() > 1 && text[0] == '+' ==> (hex_below(text, limit) == Some(n) <==> hex_number(
            text.skip(1),
        ) == Some(n) && n < limit),
        text.len() == 0 ==> hex_below(text, limit) is None,
        text.len() == 1 && text[0] == '+' ==> hex_below(text, limit) is None,
{
}

/// A socket address holds family, port, octets, channel and kind, least
/// significant byte first and with nothing between them.
pub proof fn a_socket_address_is_its_bytes(s: SockaddrL2)
    ensures
        ({
            let p = s.packed();
            &&& p.len() == 13
            &&& p[0] + 256 * p[1] == s.l2_family
            &&& p[2] + 256 * p[3] == s.l2_psm
            &&& p.subrange(4, 10) == s.l2_bdaddr@
            &&& p[10] + 256 * p[11] == s.l2_cid
            &&& p[12] == s.l2_bdaddr_type
        }),
{
    assert(s.l2_bdaddr@.len() == 6);
    let p = s.packed();
    assert(p.subrange(4, 10) =~= s.l2_bdaddr@);
    assert(p[0] as int == s.l2_family as int % 256 && p[1] as int == s.l2_family as int / 256);
    assert(p[2] as int == s.l2_psm as int % 256 && p[3] as int == s.l2_psm as int / 256);
    assert(p[10] as int == s.l2_cid as int % 256 && p[11] as int == s.l2_cid as int / 256);
}

// ---------------------------------------------------------------------------
// Keys
// ---------------------------------------------------------------------------

/// A key is sixteen numbers of two characters each.
pub proof fn a_key_is_sixteen_numbers(text: Seq<char>, i: int)
    requires
        0 <= i < 16,
    ensures
        key_of(text) is Some ==> {
            &&& text.len() == 32
            &&& key_of(text)->0.len() == 16
            &&& hex_below(text.subrange(2 * i, 2 * i + 2), 256) == Some(key_of(text)->0[i] as int)
        },
        text.len() == 32 && is_ascii_chars(text) && (forall|k: int|
            0 <= k < 16 ==> hex_below(#[trigger] crate::ble::pair(text, k), 256) is Some) ==> key_of(
            text,
        ) is Some,
        key_fault(text) == (if text.len() == 32 && is_ascii_chars(text) {
            "BLE key contains a non-hexadecimal digit"@
        } else {
            "BLE keys must each contain 32 hexadecimal digits"@
        }),
{
    if key_of(text) is Some {
        assert(crate::ble::pair(text, i) =~= text.subrange(2 * i, 2 * i + 2));
        lemma_small(crate::ble::pair(text, i));
        assert(hex_below(crate::ble::pair(text, i), 256) is Some);
    }
}

/// A key file is read when it is a regular file of this user that nobody else
/// may touch, and small.
pub proof fn a_key_file_is_private(file: KeyFile, euid: u32)
    ensures
        private_file(file, euid) <==> file.is_file && file.uid == euid && file.len <= 4096 && (
        file.mode & 0x3f) == 0,
{
    let mode = file.mode;
    assert(mode & 0x3f == mode % 64) by (bit_vector);
}

/// An address is hashed by its first half, behind zeros, and holds the hash
/// in its second half. Only a resolvable address holds one.
pub proof fn an_address_holds_its_hash(a: Address, hash: Seq<u8>)
    requires
        hash.len() == 16,
    ensures
        ({
            let o = a.0@;
            &&& prand_block(o) == seq![
                0u8, 0, 0, 0, 0, 0, 0, 0, 0, 0, 0, 0, 0, o[0], o[1], o[2],
            ]
            &&& carries_hash(o, hash) <==> 64 <= o[0] < 128 && hash[13] == o[3] && hash[14] == o[4]
                && hash[15] == o[5]
        }),
{
    let o = a.0@;
    assert(o.len() == 6);
    assert(prand_block(o) =~= seq![0u8, 0, 0, 0, 0, 0, 0, 0, 0, 0, 0, 0, 0, o[0], o[1], o[2]]);
    if hash[13] == o[3] && hash[14] == o[4] && hash[15] == o[5] {
        assert(hash.skip(13) =~= o.skip(3));
    }
    if hash.skip(13) == o.skip(3) {
        assert(hash.skip(13)[0] == o.skip(3)[0]);
        assert(hash.skip(13)[1] == o.skip(3)[1]);
        assert(hash.skip(13)[2] == o.skip(3)[2]);
    }
}

/// The radio rests at least five seconds between windows, and a reading lasts
/// from one window to the next; an observer that is on needs an absolute path.
pub proof fn the_radio_is_bounded(c: BleConfig)
    ensures
        bounded_radio(c) <==> {
            &&& 2 <= c.scan_seconds <= 30
            &&& c.scan_seconds + 5 <= c.interval_seconds <= 300
            &&& c.interval_seconds + c.scan_seconds <= c.freshness_seconds <= 600
        },
        !c.enabled ==> has_key_path(c),
        c.enabled ==> (has_key_path(c) <==> c.key_file is Some && c.key_file->0@.len() > 0
            && c.key_file->0@[0] == '/'),
{
    reveal_strlit("/");
    assert("/"@.len() == 1 && "/"@[0] == '/');
    if c.key_file is Some && c.key_file->0@.len() > 0 {
        let path = c.key_file->0@;
        if path[0] == '/' {
            assert("/"@ =~= path.subrange(0, 1));
        }
        if "/"@.is_prefix_of(path) {
            assert(path.subrange(0, 1)[0] == "/"@[0]);
        }
    }
}

// ---------------------------------------------------------------------------
// Configuration
// ---------------------------------------------------------------------------

/// A name can be announced when it has one to 32 bytes and no control
/// character; in place of any other one stands the default.
pub proof fn which_name_is_announced(c: HandoffConfig, name: Seq<char>)
    ensures
        usable_bt_name(name) <==> 1 <= encode_utf8(name).len() <= 32 && !super::writes::controls(
            name,
        ),
        c.bt_name is Some && usable_bt_name(c.bt_name->0@) ==> c.announced_name()
            == c.bt_name->0@,
        c.bt_name is None || !usable_bt_name(c.bt_name->0@) ==> c.announced_name() == "Mac"@,
{
    if super::writes::controls(name) {
        let i = choose|i: int|
            0 <= i < name.len() && ((#[trigger] name[i]) as u32 <= 0x1f || 0x7f <= name[i] as u32
                <= 0x9f);
        assert(crate::text::control_char(name[i]));
    } else {
        assert forall|i: int| 0 <= i < name.len() implies !crate::text::control_char(
            #[trigger] name[i],
        ) by {}
    }
}

/// A name below a directory has exactly one slash in front of it.
pub proof fn paths_are_joined_by_one_slash(dir: Seq<char>, name: Seq<char>)
    ensures
        dir.len() > 0 && dir.last() != '/' ==> joined_path(dir, name) == dir.push('/') + name,
        dir.len() > 0 && dir.last() == '/' ==> joined_path(dir, name) == dir + name,
        dir.len() == 0 ==> joined_path(dir, name) == name,
        forall|value: Option<&str>| #[trigger]
            usable(value) <==> value is Some && value->0@.len() > 0,
{
    reveal_strlit("/");
    assert("/"@ =~= seq!['/']);
    if dir.len() == 0 {
        assert(dir + name =~= name);
    } else if dir.last() != '/' {
        assert(dir + "/"@ + name =~= dir.push('/') + name);
    }
}

/// An edit fails on a file that is no TOML, with the parser's words, and on
/// one whose key holds no table. Otherwise the flag is set in the table that
/// is there, or in a new one.
pub proof fn an_edit_sets_the_flag(
    fault: Option<Seq<char>>,
    has: bool,
    with_table: Option<Seq<char>>,
    with_flag: Option<Seq<char>>,
)
    ensures
        ({
            let r = edited(fault, has, with_table, with_flag);
            let way = if has {
                with_flag
            } else {
                with_table
            };
            &&& fault is Some ==> r == Err::<Seq<char>, EditErrorModel>(
                EditErrorModel::NotToml(fault->0),
            )
            &&& fault is None && way is Some ==> r == Ok::<Seq<char>, EditErrorModel>(way->0)
            &&& fault is None && way is None ==> r == Err::<Seq<char>, EditErrorModel>(
                EditErrorModel::NotATable,
            )
        }),
{
}

// ---------------------------------------------------------------------------
// Lines of requests
// ---------------------------------------------------------------------------

/// The first newline has none before it.
pub proof fn the_first_newline_is_found(bytes: Seq<u8>)
    ensures
        0 <= newline_at(bytes) <= bytes.len(),
        newline_at(bytes) < bytes.len() ==> bytes[newline_at(bytes)] == 10,
        forall|i: int| 0 <= i < newline_at(bytes) ==> #[trigger] bytes[i] != 10,
    decreases bytes.len(),
{
    if bytes.len() > 0 && bytes[0] != 10 {
        let rest = bytes.skip(1);
        the_first_newline_is_found(rest);
        assert forall|i: int| 0 <= i < newline_at(bytes) implies #[trigger] bytes[i] != 10 by {
            if i > 0 {
                assert(rest[i - 1] == bytes[i]);
            }
        }
        if newline_at(bytes) < bytes.len() {
            assert(rest[newline_at(rest)] == bytes[newline_at(bytes)]);
        }
    }
}

/// A line ends at its newline, which is used up; without one everything is
/// held. A line of more than 64 KiB is refused, and what is left when the peer
/// hangs up is a last line.
pub proof fn a_line_ends_at_its_newline(held: Seq<u8>, available: Seq<u8>, at: int)
    requires
        0 <= at <= available.len(),
        at < available.len() ==> available[at] == 10,
        forall|i: int| 0 <= i < at ==> #[trigger] available[i] != 10,
    ensures
        ({
            let (kept, used, line) = line_step(held, available);
            if available.len() == 0 {
                &&& kept.len() == 0 && used == 0
                &&& line == (if held.len() == 0 {
                    LineModel::Eof
                } else {
                    LineModel::Got(crate::aap::codec::lossy_text(held))
                })
            } else if held.len() + at > 65536 {
                kept == held && used == 0 && line == LineModel::TooLong
            } else if at < available.len() {
                &&& kept.len() == 0 && used == at + 1
                &&& line == LineModel::Got(
                    crate::aap::codec::lossy_text(held + available.take(at)),
                )
            } else {
                kept == held + available && used == available.len() && line == LineModel::More
            }
        }),
{
    the_first_newline_is_found(available);
    let n = newline_at(available);
    if n < at {
        assert(available[n] != 10);
    }
    if at < n {
        assert(available[at] != 10);
    }
}

// ---------------------------------------------------------------------------
// Players
// ---------------------------------------------------------------------------

/// Every player on the bus counts but the one that stands for the others.
pub proof fn which_players_count(name: Seq<char>, player: Player)
    ensures
        counted(name) <==> "org.mpris.MediaPlayer2."@.is_prefix_of(name) && name
            != "org.mpris.MediaPlayer2.playerctld"@,
        plays(player) <==> player.status@ == "Playing"@,
{
}

/// Two readings are the same when all they say is.
pub proof fn readings_differ_in_what_they_say(a: PlaybackReading, b: PlaybackReading)
    ensures
        same_reading(a, b) <==> a.playing == b.playing && text_view(a.app) == text_view(b.app)
            && text_view(a.player) == text_view(b.player),
{
}

// ---------------------------------------------------------------------------
// The cache
// ---------------------------------------------------------------------------

/// A cached cell reports nothing, and keeps what it last said.
pub proof fn a_cached_cell_is_history(c: Cell)
    ensures
        ({
            let a = absent(c);
            &&& !a.present && !a.fresh && !a.charging
            &&& a.level == c.level && a.last_seen == c.last_seen && a.last_known_charging
                == c.last_known_charging
        }),
{
}

/// Two batteries retain the same when each cell has the same level, time and
/// charging state on record.
pub proof fn what_is_retained(a: Battery, b: Battery)
    ensures
        retains(a, b) <==> {
            &&& a.left.level == b.left.level && text_view(a.left.last_seen) == text_view(
                b.left.last_seen,
            ) && a.left.last_known_charging == b.left.last_known_charging
            &&& a.right.level == b.right.level && text_view(a.right.last_seen) == text_view(
                b.right.last_seen,
            ) && a.right.last_known_charging == b.right.last_known_charging
            &&& a.case.level == b.case.level && text_view(a.case.last_seen) == text_view(
                b.case.last_seen,
            ) && a.case.last_known_charging == b.case.last_known_charging
        },
{
}

// ---------------------------------------------------------------------------
// Commands and the link
// ---------------------------------------------------------------------------

/// A queued command is carried out while its client is there, its deadline is
/// ahead and the link is the one it was meant for; it is refused for the first
/// of these that fails.
pub proof fn a_command_is_carried_out_in_time(
    closed: bool,
    now: Instant,
    deadline: Instant,
    same: bool,
)
    ensures
        staleness(closed, now, deadline, same) is None <==> !closed && now < deadline && same,
        closed ==> staleness(closed, now, deadline, same) == Some("request client disconnected"@),
        !closed && deadline <= now ==> staleness(closed, now, deadline, same) == Some(
            "request expired before execution"@,
        ),
        !closed && now < deadline && !same ==> staleness(closed, now, deadline, same) == Some(
            "request context changed before execution"@,
        ),
{
}

/// The link is the same while the accessory and both links are.
pub proof fn a_context_is_an_accessory_and_its_links(
    a: ConnectionContext,
    b: ConnectionContext,
    x: Option<LinkActivity>,
    y: Option<LinkActivity>,
)
    ensures
        same_context(a, b) <==> a.address@ == b.address@ && a.connected == b.connected
            && a.aap_link == b.aap_link,
        same_activity(x, y) <==> (x is None && y is None) || (x is Some && y is Some && x->0.reason
            == y->0.reason && x->0.attempt == y->0.attempt && x->0.since@ == y->0.since@),
{
}

/// What is forced is tried, then what is proven, then two variants in turn.
pub proof fn a_dial_takes_its_variant(
    forced: Option<FeaturesVariant>,
    locked: Option<FeaturesVariant>,
    attempt: u32,
)
    ensures
        forced is Some ==> variant_for(forced, locked, attempt) == forced->0,
        forced is None && locked is Some ==> variant_for(forced, locked, attempt) == locked->0,
        forced is None && locked is None ==> variant_for(forced, locked, attempt) == (if attempt
            as int % 2 == 0 {
            FeaturesVariant::D7
        } else {
            FeaturesVariant::Alt
        }),
{
}

/// Bytes in a log: two digits each, with a space between them.
pub proof fn logged_bytes_are_pairs(bytes: Seq<u8>, b: u8)
    ensures
        hex_text(Seq::empty()).len() == 0,
        hex_text(seq![b]) == seq![
            hex_digit_lower(b as int / 16),
            hex_digit_lower(b as int % 16),
        ],
        bytes.len() > 0 ==> hex_text(bytes.push(b)) == hex_text(bytes) + seq![
            ' ',
            hex_digit_lower(b as int / 16),
            hex_digit_lower(b as int % 16),
        ],
{
    assert(bytes.push(b).drop_last() =~= bytes);
    assert(hex_text(seq![b]) =~= seq![
        hex_digit_lower(b as int / 16),
        hex_digit_lower(b as int % 16),
    ]);
    if bytes.len() > 0 {
        assert(hex_text(bytes.push(b)) =~= hex_text(bytes) + seq![
            ' ',
            hex_digit_lower(b as int / 16),
            hex_digit_lower(b as int % 16),
        ]);
    }
}

} // verus!
