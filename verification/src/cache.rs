//! Last-known battery cache.
//!
//! The runtime directory is wiped whenever the daemon stops, so the last case
//! level would be lost on every restart or reboot. The battery block is kept
//! elsewhere, and comes back as stale, absent cells at startup.
use crate::state::{Battery, Cell};
use crate::config::joined_path;
use crate::text::{same_optional, same_text, text_view};
use vstd::prelude::*;
use vstd::string::*;

verus! {

/// Where the cache lives, or `None` when no cache directory can be derived:
/// in the directory systemd names, else below the user's cache directory.
pub fn cache_path(cache_directory: Option<&str>, cache_home: Option<&str>) -> (r: Option<String>)
    ensures
        text_view(r) == (match cache_directory {
            Some(dir) => Some(joined_path(dir@, "battery.json"@)),
            None => match cache_home {
                Some(dir) => Some(joined_path(joined_path(dir@, "aurisd"@), "battery.json"@)),
                None => None,
            },
        }),
{
    match cache_directory {
        Some(dir) => Some(crate::config::join_path(dir, "battery.json")),
        None => match cache_home {
            Some(dir) => {
                let own: String = crate::config::join_path(dir, "aurisd");
                Some(crate::config::join_path(own.as_str(), "battery.json"))
            },
            None => None,
        },
    }
}

/// A cell of an earlier link: absent and not charging, with its level, its
/// last time and its last charging state kept.
pub open spec fn absent(c: Cell) -> Cell {
    Cell { present: false, fresh: false, charging: false, ..c }
}

fn make_absent(c: Cell) -> (r: Cell)
    ensures
        r == absent(c),
{
    Cell {
        level: c.level,
        charging: false,
        last_known_charging: c.last_known_charging,
        present: false,
        fresh: false,
        last_seen: c.last_seen,
    }
}

/// The readings that come back from the cache, if it belongs to this
/// accessory. An unbound cache cannot safely be attributed to it. Every cell
/// comes back absent and not charging, and the whole as stale; levels,
/// `last_seen` and historical charging are kept.
pub fn load(cached_address: &str, cached: Battery, address: &str) -> (r: Option<Battery>)
    ensures
        r == (if address@.len() == 0 || cached_address@ != address@ {
            None
        } else {
            Some(
                Battery {
                    stale: true,
                    left: absent(cached.left),
                    right: absent(cached.right),
                    case: absent(cached.case),
                },
            )
        }),
{
    if same_text(address, "") || !same_text(cached_address, address) {
        proof {
            reveal_strlit("");
            if address@ == ""@ {
                assert(address@.len() == 0);
            }
        }
        return None;
    }
    proof {
        reveal_strlit("");
        if address@.len() == 0 {
            assert(address@ =~= ""@);
        }
    }
    Some(
        Battery {
            stale: true,
            left: make_absent(cached.left),
            right: make_absent(cached.right),
            case: make_absent(cached.case),
        },
    )
}

/// Two cells retain the same reading.
pub open spec fn same_cell(a: Cell, b: Cell) -> bool {
    a.level == b.level && text_view(a.last_seen) == text_view(b.last_seen)
        && a.last_known_charging == b.last_known_charging
}

/// Two blocks retain the same readings, whatever is live about them.
pub open spec fn retains(a: Battery, b: Battery) -> bool {
    same_cell(a.left, b.left) && same_cell(a.right, b.right) && same_cell(a.case, b.case)
}

fn is_same_cell(a: &Cell, b: &Cell) -> (r: bool)
    ensures
        r == same_cell(*a, *b),
{
    a.level == b.level && same_optional(&a.last_seen, &b.last_seen) && a.last_known_charging
        == b.last_known_charging
}

/// True when no retained reading differs, i.e. nothing worth re-saving.
pub fn same_readings(a: &Battery, b: &Battery) -> (r: bool)
    ensures
        r == retains(*a, *b),
{
    is_same_cell(&a.left, &b.left) && is_same_cell(&a.right, &b.right) && is_same_cell(
        &a.case,
        &b.case,
    )
}

/// What comes back from the cache retains exactly the readings that went in.
pub proof fn the_cache_keeps_the_readings(b: Battery)
    ensures
        retains(
            b,
            Battery {
                stale: true,
                left: absent(b.left),
                right: absent(b.right),
                case: absent(b.case),
            },
        ),
{
}

} // verus!
