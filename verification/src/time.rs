//! Time, in whole milliseconds.
//!
//! The drag state machine and the animation set read the clock only through
//! timestamps handed in by the host adapter, so two calls on equal inputs
//! stay equal; a timestamp is bounded by [`MAX_TIME`] so that sums with
//! animation durations never overflow.

use vstd::prelude::*;

verus! {

/// Largest timestamp, in milliseconds, that the logic accepts.
pub const MAX_TIME: i64 = 0x4000_0000_0000;

/// A timestamp the logic can work with.
pub open spec fn time_ok(t: int) -> bool {
    0 <= t <= MAX_TIME
}

} // verus!
