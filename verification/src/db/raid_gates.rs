//! How long a leader has to wait who cancelled a headcount of their own. A wait that
//! is over is deleted when it is next read.

use vstd::prelude::*;

use crate::clock::MICROS_PER_SECOND;

verus! {

/// When a wait of so many seconds that starts now is over.
pub fn cooldown_until(now: i64, seconds: i32) -> (r: i64)
    requires
        i64::MIN <= now + seconds * MICROS_PER_SECOND <= i64::MAX,
    ensures
        r == now + seconds * MICROS_PER_SECOND,
{
    now + seconds as i64 * MICROS_PER_SECOND
}

/// What is known of a leader's wait.
#[derive(Debug, Clone, Copy, PartialEq, Eq, Structural)]
pub enum Cooldown {
    /// There is none.
    Free,
    /// It lasts until then.
    Waiting(i64),
    /// It is over: delete it, and there is none.
    Prune,
}

/// What is known of a leader's wait, out of what is stored of it.
pub open spec fn cooldown_of(expires_at: Option<i64>, now: i64) -> Cooldown {
    match expires_at {
        None => Cooldown::Free,
        Some(t) => if t > now {
            Cooldown::Waiting(t)
        } else {
            Cooldown::Prune
        },
    }
}

/// What is known of a leader's wait, out of what is stored of it.
pub fn cooldown_active(expires_at: Option<i64>, now: i64) -> (r: Cooldown)
    ensures
        r == cooldown_of(expires_at, now),
{
    match expires_at {
        None => Cooldown::Free,
        Some(t) => if t > now {
            Cooldown::Waiting(t)
        } else {
            Cooldown::Prune
        },
    }
}

/// A leader who cancels has to wait for just as long as the tier says, and no
/// longer.
pub proof fn waits_last_as_long_as_set(start: i64, seconds: i32, now: i64)
    requires
        i64::MIN <= start + seconds * MICROS_PER_SECOND <= i64::MAX,
    ensures
        (cooldown_of(Some((start + seconds * MICROS_PER_SECOND) as i64), now) is Waiting) == (now
            < start + seconds * MICROS_PER_SECOND),
{
}

/// A wait that is not over is told with its end; one that is over is forgotten.
pub proof fn waits_are_told_until_they_end(until: i64, now: i64)
    ensures
        cooldown_of(None, now) is Free,
        now < until ==> cooldown_of(Some(until), now) == Cooldown::Waiting(until),
        now >= until ==> cooldown_of(Some(until), now) is Prune,
{
}

} // verus!
