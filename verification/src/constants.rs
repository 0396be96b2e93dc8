//! Physical constants and the coordinate axes.

use vstd::prelude::*;

verus! {

/// Earth standard gravitational parameter in m^3/s^2.
pub const MU_EARTH: i64 = 398_600_441_800_000;

/// The unit vector along x.
pub const X_AXIS: [i64; 3] = [1, 0, 0];

/// The unit vector along y.
pub const Y_AXIS: [i64; 3] = [0, 1, 0];

/// The unit vector along z.
pub const Z_AXIS: [i64; 3] = [0, 0, 1];

} // verus!
