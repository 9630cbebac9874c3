//! Points in time. They are held in microseconds since 1970, as the database keeps
//! them, and shown in seconds.

use vstd::prelude::*;

verus! {

/// How many microseconds a second has.
pub const MICROS_PER_SECOND: i64 = 1_000_000;

/// The second in which a point in time lies.
pub open spec fn second_of(t: int) -> int {
    t / (MICROS_PER_SECOND as int)
}

/// The second in which a point in time lies.
pub fn whole_seconds(t: i64) -> (r: i64)
    ensures
        r == second_of(t as int),
{
    if t >= 0 {
        t / 1_000_000
    } else {
        -((-(t + 1)) / 1_000_000) - 1
    }
}

/// A moment lies within the second it belongs to, on either side of the beginning.
pub proof fn moments_lie_within_their_second(t: int)
    ensures
        second_of(t) * 1_000_000 <= t < (second_of(t) + 1) * 1_000_000,
{
}

} // verus!
