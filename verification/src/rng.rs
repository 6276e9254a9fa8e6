//! Randomized velocity assignment: a drawn or injected sign source applied to
//! fixed component magnitudes.

use vstd::prelude::*;
use crate::geometry::{Vec2, abs_val};

verus! {

/// Relies on `rand::random::<bool>()`: a fair coin drawn from the
/// thread-local generator. Nothing can be promised about which side comes up.
#[verifier::external_body]
pub(crate) fn coin_flip() -> bool {
    rand::random::<bool>()
}

/// The magnitude `mag` carrying the given sign (`true` = positive).
pub open spec fn signed_component(mag: int, positive: bool) -> int {
    if positive {
        mag
    } else {
        -mag
    }
}

/// Sets `vec` to the vector with component magnitudes `(x, y)` and the given
/// signs. This is the deterministic core of velocity randomization: the
/// caller injects the sign source.
pub fn set_signed_vec(vec: &mut Vec2, x: i64, y: i64, x_positive: bool, y_positive: bool)
    requires
        0 <= x,
        0 <= y,
    ensures
        final(vec).x == signed_component(x as int, x_positive),
        final(vec).y == signed_component(y as int, y_positive),
        abs_val(final(vec).x as int) == x,
        abs_val(final(vec).y as int) == y,
{
    vec.x = if x_positive {
        x
    } else {
        -x
    };
    vec.y = if y_positive {
        y
    } else {
        -y
    };
}

/// Sets `vec`'s components to `±x` and `±y`, each sign drawn independently
/// from a fair coin. The component magnitudes equal the requested ones
/// exactly.
pub fn randomize_vec(vec: &mut Vec2, x: i64, y: i64)
    requires
        0 <= x,
        0 <= y,
    ensures
        final(vec).x == x || final(vec).x == -x,
        final(vec).y == y || final(vec).y == -y,
        abs_val(final(vec).x as int) == x,
        abs_val(final(vec).y as int) == y,
{
    let x_positive = coin_flip();
    let y_positive = coin_flip();
    set_signed_vec(vec, x, y, x_positive, y_positive);
}

} // verus!
