//! Units of length and velocity.
//!
//! Quantities are whole numbers. A velocity counts quanta, `VELOCITY_SCALE` of
//! them to a velocity of one. A length counts ticks, `TICKS_PER_UNIT` of them
//! to one unit of the scene. The tick is chosen so that one quantum of
//! velocity, held for one fixed step at a gain of one unit per second, covers
//! one tick: a step of motion is then a multiplication by a whole number, and
//! positions collect no rounding error.

use vstd::prelude::*;

verus! {

/// Quanta to a velocity of one.
pub const VELOCITY_SCALE: i64 = 1_000_000;

/// Fixed steps to a second; a frame advances the scene by one step.
pub const STEPS_PER_SECOND: i64 = 60;

/// Ticks to one unit of length.
pub const TICKS_PER_UNIT: i64 = VELOCITY_SCALE * STEPS_PER_SECOND;

/// Width and height of the scene, in ticks.
pub const GAME_SIZE: (i64, i64) = (256 * TICKS_PER_UNIT, 256 * TICKS_PER_UNIT);

/// The integer nearest to `value` that an `i64` can hold.
pub open spec fn saturate(value: int) -> i64 {
    if value < i64::MIN {
        i64::MIN
    } else if value > i64::MAX {
        i64::MAX
    } else {
        value as i64
    }
}

/// The `i64` nearest to `value`.
pub fn clamp(value: i128) -> (clamped: i64)
    ensures
        clamped == saturate(value as int),
{
    if value < i64::MIN as i128 {
        i64::MIN
    } else if value > i64::MAX as i128 {
        i64::MAX
    } else {
        value as i64
    }
}

/// Adds `delta` to `base`, stopping at the ends of the `i64` range.
pub fn offset(base: i64, delta: i64) -> (sum: i64)
    ensures
        sum == saturate(base + delta),
{
    clamp(base as i128 + delta as i128)
}

/// Half of `extent`, rounded towards zero.
pub fn half(extent: i64) -> (h: i64)
    ensures
        h == spec_half(extent),
{
    extent / 2
}

/// Half of `extent`, rounded towards zero.
pub open spec fn spec_half(extent: i64) -> i64 {
    if extent >= 0 {
        (extent / 2) as i64
    } else {
        (-((-extent) / 2)) as i64
    }
}

} // verus!
