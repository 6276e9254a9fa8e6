//! Scalar and 2D-vector helpers used by the simulation step.

use vstd::prelude::*;
use vstd::arithmetic::div_mod::lemma_div_is_ordered;
use vstd::arithmetic::mul::lemma_mul_upper_bound;

verus! {

/// Largest speed (game units per second) the arithmetic here is sized for.
pub const MAX_SPEED: i64 = 1_000_000;

/// Largest frame delta (milliseconds) the arithmetic here is sized for.
pub const MAX_DT_MS: i64 = 1_000_000;

/// Largest coordinate magnitude the arithmetic here is sized for.
pub const MAX_COORD: i64 = 1_000_000_000_000;

/// Largest screen dimension the arithmetic here is sized for.
pub const MAX_SCREEN: i64 = 1_000_000_000;

/// A 2D point or vector with integer components (game units).
#[derive(Clone, Copy, PartialEq, Eq, Structural, Debug)]
pub struct Vec2 {
    pub x: i64,
    pub y: i64,
}

/// The value `v` restricted to the interval `[low, high]`.
pub open spec fn clamp_spec(v: int, low: int, high: int) -> int {
    if v < low {
        low
    } else if v > high {
        high
    } else {
        v
    }
}

/// Restricts `*value` to `[low, high]` in place; a no-op if it is already
/// within range.
pub fn clamp(value: &mut i64, low: i64, high: i64)
    requires
        low <= high,
    ensures
        *final(value) == clamp_spec(*old(value) as int, low as int, high as int),
        low <= *final(value) <= high,
{
    if *value < low {
        *value = low;
    } else if *value > high {
        *value = high;
    }
}

/// Magnitude of `v`.
pub open spec fn abs_val(v: int) -> int {
    if v < 0 {
        -v
    } else {
        v
    }
}

/// Magnitude of `v`.
pub fn abs_i64(v: i64) -> (r: i64)
    requires
        i64::MIN < v,
    ensures
        r == abs_val(v as int),
{
    if v < 0 {
        -v
    } else {
        v
    }
}

/// Half of `v`, rounded towards zero.
pub fn half_of(v: i64) -> (r: i64)
    requires
        0 <= v,
    ensures
        r == v as int / 2,
{
    ((v as u64) / 2) as i64
}

/// Distance covered in `dt` milliseconds at `speed` game units per second,
/// truncated to whole units.
pub open spec fn scaled_spec(speed: int, dt: int) -> int {
    speed * dt / 1000
}

/// Distance covered in `dt_ms` milliseconds at `speed` game units per second,
/// truncated to whole units.
pub fn scaled_step(speed: i64, dt_ms: i64) -> (r: i64)
    requires
        0 <= speed <= MAX_SPEED,
        0 <= dt_ms <= MAX_DT_MS,
    ensures
        r == scaled_spec(speed as int, dt_ms as int),
        0 <= r <= 1_000_000_000,
{
    proof {
        lemma_mul_upper_bound(speed as int, MAX_SPEED as int, dt_ms as int, MAX_DT_MS as int);
        lemma_div_is_ordered(speed as int * dt_ms as int, 1_000_000_000_000, 1000);
    }
    let prod: u64 = (speed as u64) * (dt_ms as u64);
    (prod / 1000) as i64
}

/// The coordinate `p` advanced for `dt` milliseconds at the signed velocity
/// `v` (game units per second).
pub open spec fn advanced_coord(p: int, v: int, dt: int) -> int {
    if v >= 0 {
        p + scaled_spec(v, dt)
    } else {
        p - scaled_spec(-v, dt)
    }
}

/// The coordinate `p` advanced for `dt_ms` milliseconds at the signed
/// velocity `v` (game units per second).
pub fn advance_coord(p: i64, v: i64, dt_ms: i64) -> (r: i64)
    requires
        -MAX_COORD <= p <= MAX_COORD,
        -MAX_SPEED <= v <= MAX_SPEED,
        0 <= dt_ms <= MAX_DT_MS,
    ensures
        r == advanced_coord(p as int, v as int, dt_ms as int),
        -MAX_COORD - 1_000_000_000 <= r <= MAX_COORD + 1_000_000_000,
{
    if v >= 0 {
        let s = scaled_step(v, dt_ms);
        p + s
    } else {
        let s = scaled_step(-v, dt_ms);
        p - s
    }
}

} // verus!
