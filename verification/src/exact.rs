//! Machine arithmetic that never rounds or wraps: products are formed in
//! `i128`, where the product of any two `i64` values fits, and brought back to
//! `i64` only when the mathematical value is known to fit.

use vstd::prelude::*;

verus! {

/// Whether the integer `n` can be held in an `i64`.
pub open spec fn representable(n: int) -> bool {
    i64::MIN <= n <= i64::MAX
}

/// The least product of two `i64` values: `i64::MIN * i64::MAX`.
pub open spec fn least_product() -> int {
    -0x3fff_ffff_ffff_ffff_8000_0000_0000_0000
}

/// The greatest product of two `i64` values: `i64::MIN * i64::MIN`.
pub open spec fn greatest_product() -> int {
    0x4000_0000_0000_0000_0000_0000_0000_0000
}

/// The product of two `i64` values lies between `i64::MIN * i64::MAX` and
/// `i64::MIN * i64::MIN`.
pub proof fn product_bounds(a: i64, b: i64)
    ensures
        least_product() <= a * b <= greatest_product(),
{
    assert(least_product() <= a * b <= greatest_product()) by (nonlinear_arith)
        requires
            -0x8000_0000_0000_0000 <= a <= 0x7fff_ffff_ffff_ffff,
            -0x8000_0000_0000_0000 <= b <= 0x7fff_ffff_ffff_ffff,
    ;
}

/// The exact product of two `i64` values.
pub fn product(a: i64, b: i64) -> (p: i128)
    ensures
        p == a * b,
        least_product() <= p <= greatest_product(),
{
    proof {
        product_bounds(a, b);
    }
    (a as i128) * (b as i128)
}

/// Brings a wide value that fits in an `i64` back to that type.
pub fn narrow(n: i128) -> (r: i64)
    requires
        representable(n as int),
    ensures
        r == n,
{
    n as i64
}

} // verus!
