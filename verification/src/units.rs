//! Fixed-point distances and the arithmetic on them.
//!
//! A coordinate is an `i64` count of steps, a thousand steps to the distance
//! unit. Time is counted in milliseconds, so something moving at `v` units
//! per second covers exactly `v` steps per millisecond. A coordinate pushed
//! past either end of the `i64` range stays at that end.

use vstd::prelude::*;

verus! {

/// Steps in one distance unit.
pub const STEPS_PER_UNIT: u64 = 1000;

/// The coordinate nearest to `v`.
pub open spec fn saturate(v: int) -> i64 {
    if v < i64::MIN {
        i64::MIN
    } else if v > i64::MAX {
        i64::MAX
    } else {
        v as i64
    }
}

/// Steps covered in `elapsed` milliseconds at `speed` units per second.
pub fn travel(speed: u64, elapsed: u64) -> (steps: u128)
    ensures
        steps == speed * elapsed,
{
    assert(speed * elapsed <= u64::MAX * u64::MAX) by (nonlinear_arith)
        requires
            speed <= u64::MAX,
            elapsed <= u64::MAX,
    ;
    (speed as u128) * (elapsed as u128)
}

/// `base` moved `by` steps towards larger coordinates.
pub fn shifted_up(base: i64, by: u128) -> (moved: i64)
    ensures
        moved == saturate(base + by),
{
    let room: u128 = (i64::MAX as i128 - base as i128) as u128;
    if by > room {
        i64::MAX
    } else {
        (base as i128 + by as i128) as i64
    }
}

/// `base` moved `by` steps towards smaller coordinates.
pub fn shifted_down(base: i64, by: u128) -> (moved: i64)
    ensures
        moved == saturate(base - by),
{
    let room: u128 = (base as i128 - i64::MIN as i128) as u128;
    if by > room {
        i64::MIN
    } else {
        (base as i128 - by as i128) as i64
    }
}

} // verus!
