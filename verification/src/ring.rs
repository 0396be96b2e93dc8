//! Facts of integer arithmetic from which the algebraic laws are built.
//!
//! Each one is small enough for the solver's nonlinear reasoning to settle at
//! once; the laws then follow by linear arithmetic over the products that
//! these facts bring to a common form.

use vstd::prelude::*;

verus! {

/// The products of two numbers and of their opposites.
pub proof fn signs(a: int, b: int)
    ensures
        (-a) * (-b) == a * b,
        (-a) * b == -(a * b),
        a * (-b) == -(a * b),
        b * a == a * b,
{
    assert((-a) * (-b) == a * b) by (nonlinear_arith);
    assert((-a) * b == -(a * b)) by (nonlinear_arith);
    assert(a * (-b) == -(a * b)) by (nonlinear_arith);
    assert(b * a == a * b) by (nonlinear_arith);
}

/// The product of three numbers, however it is grouped and ordered.
pub proof fn arrange(a: int, b: int, c: int)
    ensures
        (a * b) * c == a * b * c,
        (b * a) * c == a * b * c,
        (a * c) * b == a * b * c,
        (c * a) * b == a * b * c,
        (b * c) * a == a * b * c,
        (c * b) * a == a * b * c,
{
    assert((b * a) * c == a * b * c) by (nonlinear_arith);
    assert((a * c) * b == a * b * c) by (nonlinear_arith);
    assert((c * a) * b == a * b * c) by (nonlinear_arith);
    assert((b * c) * a == a * b * c) by (nonlinear_arith);
    assert((c * b) * a == a * b * c) by (nonlinear_arith);
}

/// A factor distributes over a sum of three terms.
pub proof fn distribute_over_three(k: int, x: int, y: int, z: int)
    ensures
        k * (x + y + z) == k * x + k * y + k * z,
{
    assert(k * (x + y + z) == k * x + k * y + k * z) by (nonlinear_arith);
}

/// A factor spread over a sum of four terms, for each of the four ways in
/// which the parts of a Hamilton product add and subtract theirs, with the
/// factor on either side.
pub proof fn spread(k: int, p: int, q: int, r: int, t: int)
    ensures
        (p - (q + r + t)) * k == p * k - q * k - r * k - t * k,
        (p + q - r + t) * k == p * k + q * k - r * k + t * k,
        (p + q + r - t) * k == p * k + q * k + r * k - t * k,
        (p - q + r + t) * k == p * k - q * k + r * k + t * k,
        k * (p - (q + r + t)) == p * k - q * k - r * k - t * k,
        k * (p + q - r + t) == p * k + q * k - r * k + t * k,
        k * (p + q + r - t) == p * k + q * k + r * k - t * k,
        k * (p - q + r + t) == p * k - q * k + r * k + t * k,
{
    assert((p - (q + r + t)) * k == p * k - q * k - r * k - t * k) by (nonlinear_arith);
    assert((p + q - r + t) * k == p * k + q * k - r * k + t * k) by (nonlinear_arith);
    assert((p + q + r - t) * k == p * k + q * k + r * k - t * k) by (nonlinear_arith);
    assert((p - q + r + t) * k == p * k - q * k + r * k + t * k) by (nonlinear_arith);
    assert(k * (p - (q + r + t)) == (p - (q + r + t)) * k) by (nonlinear_arith);
    assert(k * (p + q - r + t) == (p + q - r + t) * k) by (nonlinear_arith);
    assert(k * (p + q + r - t) == (p + q + r - t) * k) by (nonlinear_arith);
    assert(k * (p - q + r + t) == (p - q + r + t) * k) by (nonlinear_arith);
}

/// A common factor of the left operands of a difference of two products is
/// a factor of the difference.
pub proof fn scaled_difference(p: int, q: int, k: int, c: int, d: int)
    ensures
        (p * k) * c - (q * k) * d == (p * c - q * d) * k,
{
    assert((p * k) * c == (p * c) * k) by (nonlinear_arith);
    assert((q * k) * d == (q * d) * k) by (nonlinear_arith);
    assert((p * c - q * d) * k == (p * c) * k - (q * d) * k) by (nonlinear_arith);
}

/// An integer whose square is at most one is -1, 0 or 1.
pub proof fn small_square(c: int)
    requires
        c * c <= 1,
    ensures
        -1 <= c <= 1,
{
    assert(-1 <= c <= 1) by (nonlinear_arith)
        requires
            c * c <= 1,
    ;
}

/// Multiplying by -1, 0 or 1 gives the opposite, zero or the number itself.
pub proof fn times_unit(a: int, c: int)
    requires
        -1 <= c <= 1,
    ensures
        a * c == (if c == 0 { 0 } else if c == 1 { a } else { -a }),
        c * a == a * c,
{
    assert(a * c == (if c == 0 { 0 } else if c == 1 { a } else { -a })) by (nonlinear_arith)
        requires
            -1 <= c <= 1,
    ;
    assert(c * a == a * c) by (nonlinear_arith);
}

/// The product of two products of two numbers each, one of `x` and `y` with
/// one of `z` and `w` each time, and the product of `x y` with `z w`: however
/// the four numbers are paired and ordered, it is `x y z w`.
pub proof fn pair(x: int, y: int, z: int, w: int)
    ensures
        (x * z) * (y * w) == x * y * z * w,
        (y * w) * (x * z) == x * y * z * w,
        (x * z) * (w * y) == x * y * z * w,
        (w * y) * (x * z) == x * y * z * w,
        (z * x) * (y * w) == x * y * z * w,
        (y * w) * (z * x) == x * y * z * w,
        (z * x) * (w * y) == x * y * z * w,
        (w * y) * (z * x) == x * y * z * w,
        (x * w) * (y * z) == x * y * z * w,
        (y * z) * (x * w) == x * y * z * w,
        (x * w) * (z * y) == x * y * z * w,
        (z * y) * (x * w) == x * y * z * w,
        (w * x) * (y * z) == x * y * z * w,
        (y * z) * (w * x) == x * y * z * w,
        (w * x) * (z * y) == x * y * z * w,
        (z * y) * (w * x) == x * y * z * w,
        (x * y) * (z * w) == x * y * z * w,
{
    assert((x * z) * (y * w) == x * y * z * w) by (nonlinear_arith);
    assert((y * w) * (x * z) == x * y * z * w) by (nonlinear_arith);
    assert((x * z) * (w * y) == x * y * z * w) by (nonlinear_arith);
    assert((w * y) * (x * z) == x * y * z * w) by (nonlinear_arith);
    assert((z * x) * (y * w) == x * y * z * w) by (nonlinear_arith);
    assert((y * w) * (z * x) == x * y * z * w) by (nonlinear_arith);
    assert((z * x) * (w * y) == x * y * z * w) by (nonlinear_arith);
    assert((w * y) * (z * x) == x * y * z * w) by (nonlinear_arith);
    assert((x * w) * (y * z) == x * y * z * w) by (nonlinear_arith);
    assert((y * z) * (x * w) == x * y * z * w) by (nonlinear_arith);
    assert((x * w) * (z * y) == x * y * z * w) by (nonlinear_arith);
    assert((z * y) * (x * w) == x * y * z * w) by (nonlinear_arith);
    assert((w * x) * (y * z) == x * y * z * w) by (nonlinear_arith);
    assert((y * z) * (w * x) == x * y * z * w) by (nonlinear_arith);
    assert((w * x) * (z * y) == x * y * z * w) by (nonlinear_arith);
    assert((z * y) * (w * x) == x * y * z * w) by (nonlinear_arith);
    assert((x * y) * (z * w) == x * y * z * w) by (nonlinear_arith);
}

/// The square of a sum of four terms spread into its ten products, for each
/// of the four ways in which the parts of a Hamilton product add and subtract
/// theirs.
pub proof fn square_of_four(p: int, q: int, r: int, t: int)
    ensures
        (p - (q + r + t)) * (p - (q + r + t)) == p * p + q * q + r * r + t * t - 2 * (p * q) - 2
            * (p * r) - 2 * (p * t) + 2 * (q * r) + 2 * (q * t) + 2 * (r * t),
        (p + q - r + t) * (p + q - r + t) == p * p + q * q + r * r + t * t + 2 * (p * q) - 2 * (p
            * r) + 2 * (p * t) - 2 * (q * r) + 2 * (q * t) - 2 * (r * t),
        (p + q + r - t) * (p + q + r - t) == p * p + q * q + r * r + t * t + 2 * (p * q) + 2 * (p
            * r) - 2 * (p * t) + 2 * (q * r) - 2 * (q * t) - 2 * (r * t),
        (p - q + r + t) * (p - q + r + t) == p * p + q * q + r * r + t * t - 2 * (p * q) + 2 * (p
            * r) + 2 * (p * t) - 2 * (q * r) - 2 * (q * t) + 2 * (r * t),
{
    assert((p - (q + r + t)) * (p - (q + r + t)) == p * p + q * q + r * r + t * t - 2 * (p * q) - 2
        * (p * r) - 2 * (p * t) + 2 * (q * r) + 2 * (q * t) + 2 * (r * t)) by (nonlinear_arith);
    assert((p + q - r + t) * (p + q - r + t) == p * p + q * q + r * r + t * t + 2 * (p * q) - 2 * (p
        * r) + 2 * (p * t) - 2 * (q * r) + 2 * (q * t) - 2 * (r * t)) by (nonlinear_arith);
    assert((p + q + r - t) * (p + q + r - t) == p * p + q * q + r * r + t * t + 2 * (p * q) + 2 * (p
        * r) - 2 * (p * t) + 2 * (q * r) - 2 * (q * t) - 2 * (r * t)) by (nonlinear_arith);
    assert((p - q + r + t) * (p - q + r + t) == p * p + q * q + r * r + t * t - 2 * (p * q) + 2 * (p
        * r) + 2 * (p * t) - 2 * (q * r) - 2 * (q * t) + 2 * (r * t)) by (nonlinear_arith);
}

/// The product of two sums of four terms spread into its sixteen products.
pub proof fn product_of_sums(
    a0: int,
    a1: int,
    a2: int,
    a3: int,
    b0: int,
    b1: int,
    b2: int,
    b3: int,
)
    ensures
        (a0 + (a1 + a2 + a3)) * (b0 + (b1 + b2 + b3)) == a0 * b0 + a0 * b1 + a0 * b2 + a0 * b3 + a1
            * b0 + a1 * b1 + a1 * b2 + a1 * b3 + a2 * b0 + a2 * b1 + a2 * b2 + a2 * b3 + a3 * b0
            + a3 * b1 + a3 * b2 + a3 * b3,
{
    let b = b0 + (b1 + b2 + b3);
    assert((a0 + (a1 + a2 + a3)) * b == a0 * b + a1 * b + a2 * b + a3 * b) by (nonlinear_arith);
    assert(a0 * (b0 + (b1 + b2 + b3)) == a0 * b0 + a0 * b1 + a0 * b2 + a0 * b3) by
        (nonlinear_arith);
    assert(a1 * (b0 + (b1 + b2 + b3)) == a1 * b0 + a1 * b1 + a1 * b2 + a1 * b3) by
        (nonlinear_arith);
    assert(a2 * (b0 + (b1 + b2 + b3)) == a2 * b0 + a2 * b1 + a2 * b2 + a2 * b3) by
        (nonlinear_arith);
    assert(a3 * (b0 + (b1 + b2 + b3)) == a3 * b0 + a3 * b1 + a3 * b2 + a3 * b3) by
        (nonlinear_arith);
}

} // verus!
