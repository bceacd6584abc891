//! What the parts of the crate promise, stated of their inputs and results.
//!
//! The laws speak of readings, wire bytes, clock values and words as they come
//! in and go out, not of how a part gets from one to the other.
pub mod answers;
pub mod autoconnect;
pub mod bluetooth;
pub mod dump;
pub mod ear;
pub mod handoff;
pub mod local;
pub mod proximity;
pub mod route;
pub mod session;
pub mod shown;
pub mod store;
pub mod supervisor;
pub mod text;
pub mod wire;
pub mod writes;

use crate::clock::Instant;
use vstd::prelude::*;

verus! {

/// Nanoseconds from `t` to `now`, none when the clock reads earlier.
pub open spec fn age(now: Instant, t: Instant) -> int {
    if now >= t {
        now - t
    } else {
        0
    }
}

} // verus!
