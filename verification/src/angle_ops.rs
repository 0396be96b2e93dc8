//! Angles and their two canonical domains.
//!
//! An angle is a whole number of arcseconds, so that a full turn and every
//! usual fraction of it are exact. `TWO_PI` arcseconds make the full turn 2π
//! and `PI` arcseconds the half turn π. The two canonical domains are
//! `[0, 2π)` and `(-π, π]`.

use vstd::prelude::*;

verus! {

/// The full turn 2π, in arcseconds.
pub const TWO_PI: i64 = 1_296_000;

/// The half turn π, in arcseconds.
pub const PI: i64 = 648_000;

/// Whether two angles differ by a whole number of turns.
pub open spec fn same_direction(a: int, b: int) -> bool {
    (a - b) % (TWO_PI as int) == 0
}

/// The angle of `[0, 2π)` that differs from `angle` by whole turns.
pub open spec fn canonical_0_2pi(angle: int) -> int {
    angle % (TWO_PI as int)
}

/// The angle of `(-π, π]` that differs from `angle` by whole turns.
pub open spec fn canonical_negpi_pi(angle: int) -> int {
    let w = canonical_0_2pi(angle);
    if w > PI {
        w - TWO_PI
    } else {
        w
    }
}

/// Brings an angle into `[0, 2π)`. An angle of that domain is left as it is.
pub fn wrap_0_2pi(angle: i64) -> (wrapped: i64)
    ensures
        wrapped == canonical_0_2pi(angle as int),
        0 <= wrapped < TWO_PI,
        same_direction(wrapped as int, angle as int),
        0 <= angle < TWO_PI ==> wrapped == angle,
{
    // the remainder has the sign of `angle`, so one turn added is enough
    let mut wrapped_angle: i64 = angle % TWO_PI;
    if wrapped_angle < 0 {
        wrapped_angle += TWO_PI;
    }
    wrapped_angle
}

/// Brings an angle into `(-π, π]`. An angle of that domain is left as it is.
pub fn wrap_negpi_pi(angle: i64) -> (wrapped: i64)
    ensures
        wrapped == canonical_negpi_pi(angle as int),
        -PI < wrapped <= PI,
        same_direction(wrapped as int, angle as int),
        -PI < angle <= PI ==> wrapped == angle,
{
    let mut wrapped_angle: i64 = wrap_0_2pi(angle);
    if wrapped_angle > PI {
        wrapped_angle -= TWO_PI;
    }
    wrapped_angle
}

/// Each canonical domain holds exactly one angle of every direction: two
/// angles of `[0, 2π)`, or of `(-π, π]`, that differ by whole turns are equal.
pub proof fn canonical_angle_is_unique(a: int, b: int)
    requires
        same_direction(a, b),
        (0 <= a < TWO_PI && 0 <= b < TWO_PI) || (-PI < a <= PI && -PI < b <= PI),
    ensures
        a == b,
{
}

/// The two wraps are inverses of each other up to whole turns: bringing an
/// angle into one domain and then into the other gives what bringing it into
/// the other at once gives.
pub proof fn wraps_agree(angle: int)
    ensures
        canonical_0_2pi(canonical_negpi_pi(angle)) == canonical_0_2pi(angle),
        canonical_negpi_pi(canonical_0_2pi(angle)) == canonical_negpi_pi(angle),
        canonical_0_2pi(canonical_0_2pi(angle)) == canonical_0_2pi(angle),
        canonical_negpi_pi(canonical_negpi_pi(angle)) == canonical_negpi_pi(angle),
{
}

/// Angles that differ by whole turns have the same canonical angles.
pub proof fn wraps_forget_turns(angle: int, turns: int)
    ensures
        canonical_0_2pi(angle + turns * TWO_PI) == canonical_0_2pi(angle),
        canonical_negpi_pi(angle + turns * TWO_PI) == canonical_negpi_pi(angle),
{
}

} // verus!
