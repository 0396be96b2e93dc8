//! The algebra of the dot and cross products, proved over the mathematical
//! model.

use vstd::prelude::*;

use crate::ring::{distribute_over_three, scaled_difference, signs};
use crate::vector::Vec3;

verus! {

/// The dot product does not depend on the order of its operands.
pub proof fn dot_commutes(a: Vec3, b: Vec3)
    ensures
        a.dot(b) == b.dot(a),
{
    assert(a.x * b.x == b.x * a.x) by (nonlinear_arith);
    assert(a.y * b.y == b.y * a.y) by (nonlinear_arith);
    assert(a.z * b.z == b.z * a.z) by (nonlinear_arith);
}

/// The dot product of a vector with itself is not negative, and it is zero
/// for the zero vector only.
pub proof fn dot_with_itself(a: Vec3)
    ensures
        a.dot(a) >= 0,
        a.dot(a) == 0 <==> a == Vec3::zero(),
{
    assert(a.x * a.x >= 0 && (a.x * a.x == 0 <==> a.x == 0)) by (nonlinear_arith);
    assert(a.y * a.y >= 0 && (a.y * a.y == 0 <==> a.y == 0)) by (nonlinear_arith);
    assert(a.z * a.z >= 0 && (a.z * a.z == 0 <==> a.z == 0)) by (nonlinear_arith);
}

/// Exchanging the operands of the cross product negates it.
pub proof fn cross_anticommutes(a: Vec3, b: Vec3)
    ensures
        a.cross(b) == b.cross(a).negate(),
{
    assert(a.y * b.z - a.z * b.y == -(b.y * a.z - b.z * a.y)) by (nonlinear_arith);
    assert(a.z * b.x - a.x * b.z == -(b.z * a.x - b.x * a.z)) by (nonlinear_arith);
    assert(a.x * b.y - a.y * b.x == -(b.x * a.y - b.y * a.x)) by (nonlinear_arith);
}

/// The cross product of a vector with a multiple of itself is zero.
pub proof fn cross_of_parallel_is_zero(a: Vec3, k: int)
    ensures
        a.cross(a.scale(k)) == Vec3::zero(),
        a.scale(k).cross(a) == Vec3::zero(),
        a.cross(a) == Vec3::zero(),
{
    assert(a.y * (a.z * k) - a.z * (a.y * k) == 0) by (nonlinear_arith);
    assert(a.z * (a.x * k) - a.x * (a.z * k) == 0) by (nonlinear_arith);
    assert(a.x * (a.y * k) - a.y * (a.x * k) == 0) by (nonlinear_arith);
    assert((a.y * k) * a.z - (a.z * k) * a.y == 0) by (nonlinear_arith);
    assert((a.z * k) * a.x - (a.x * k) * a.z == 0) by (nonlinear_arith);
    assert((a.x * k) * a.y - (a.y * k) * a.x == 0) by (nonlinear_arith);
    assert(a.y * a.z - a.z * a.y == 0) by (nonlinear_arith);
    assert(a.z * a.x - a.x * a.z == 0) by (nonlinear_arith);
    assert(a.x * a.y - a.y * a.x == 0) by (nonlinear_arith);
}

/// The cross product with the opposite of a vector is the cross product in
/// the other order.
pub proof fn cross_with_opposite(a: Vec3, b: Vec3)
    ensures
        a.cross(b.negate()) == b.cross(a),
{
    assert(a.y * (-b.z) - a.z * (-b.y) == b.y * a.z - b.z * a.y) by (nonlinear_arith);
    assert(a.z * (-b.x) - a.x * (-b.z) == b.z * a.x - b.x * a.z) by (nonlinear_arith);
    assert(a.x * (-b.y) - a.y * (-b.x) == b.x * a.y - b.y * a.x) by (nonlinear_arith);
}

/// The cross product of the opposite of a vector is the cross product in the
/// other order.
pub proof fn opposite_cross(a: Vec3, b: Vec3)
    ensures
        a.negate().cross(b) == b.cross(a),
{
    assert((-a.y) * b.z - (-a.z) * b.y == b.y * a.z - b.z * a.y) by (nonlinear_arith);
    assert((-a.z) * b.x - (-a.x) * b.z == b.z * a.x - b.x * a.z) by (nonlinear_arith);
    assert((-a.x) * b.y - (-a.y) * b.x == b.x * a.y - b.y * a.x) by (nonlinear_arith);
}

/// The dot product distributes over a sum in its left operand.
pub proof fn dot_of_sum(a: Vec3, b: Vec3, c: Vec3)
    ensures
        a.plus(b).dot(c) == a.dot(c) + b.dot(c),
{
    assert((a.x + b.x) * c.x == a.x * c.x + b.x * c.x) by (nonlinear_arith);
    assert((a.y + b.y) * c.y == a.y * c.y + b.y * c.y) by (nonlinear_arith);
    assert((a.z + b.z) * c.z == a.z * c.z + b.z * c.z) by (nonlinear_arith);
}

/// A factor of the left operand of a dot product is a factor of the product.
pub proof fn dot_of_scaled(a: Vec3, k: int, c: Vec3)
    ensures
        a.scale(k).dot(c) == a.dot(c) * k,
{
    assert((a.x * k) * c.x == (a.x * c.x) * k) by (nonlinear_arith);
    assert((a.y * k) * c.y == (a.y * c.y) * k) by (nonlinear_arith);
    assert((a.z * k) * c.z == (a.z * c.z) * k) by (nonlinear_arith);
    assert((a.x * c.x + a.y * c.y + a.z * c.z) * k == (a.x * c.x) * k + (a.y * c.y) * k + (a.z
        * c.z) * k) by (nonlinear_arith);
}

/// The cross product distributes over a sum in its left operand.
pub proof fn cross_of_sum(a: Vec3, b: Vec3, c: Vec3)
    ensures
        a.plus(b).cross(c) == a.cross(c).plus(b.cross(c)),
{
    assert((a.y + b.y) * c.z - (a.z + b.z) * c.y == (a.y * c.z - a.z * c.y) + (b.y * c.z - b.z
        * c.y)) by (nonlinear_arith);
    assert((a.z + b.z) * c.x - (a.x + b.x) * c.z == (a.z * c.x - a.x * c.z) + (b.z * c.x - b.x
        * c.z)) by (nonlinear_arith);
    assert((a.x + b.x) * c.y - (a.y + b.y) * c.x == (a.x * c.y - a.y * c.x) + (b.x * c.y - b.y
        * c.x)) by (nonlinear_arith);
}

/// A factor of the left operand of a cross product is a factor of the
/// product.
pub proof fn cross_of_scaled(a: Vec3, k: int, c: Vec3)
    ensures
        a.scale(k).cross(c) == a.cross(c).scale(k),
{
    scaled_difference(a.y, a.z, k, c.z, c.y);
    scaled_difference(a.z, a.x, k, c.x, c.z);
    scaled_difference(a.x, a.y, k, c.y, c.x);
}

/// The sum that makes a cross product orthogonal to its operands: the three
/// products of one coordinate of each of three vectors cancel in pairs.
proof fn cyclic_sum_vanishes(ax: int, ay: int, az: int, bx: int, by: int, bz: int)
    ensures
        (ay * bz - az * by) * ax + (az * bx - ax * bz) * ay + (ax * by - ay * bx) * az == 0,
        (ay * bz - az * by) * bx + (az * bx - ax * bz) * by + (ax * by - ay * bx) * bz == 0,
{
    assert((ay * bz - az * by) * ax == ay * bz * ax - az * by * ax) by (nonlinear_arith);
    assert((az * bx - ax * bz) * ay == az * bx * ay - ax * bz * ay) by (nonlinear_arith);
    assert((ax * by - ay * bx) * az == ax * by * az - ay * bx * az) by (nonlinear_arith);
    assert(ax * bz * ay == ay * bz * ax) by (nonlinear_arith);
    assert(ax * by * az == az * by * ax) by (nonlinear_arith);
    assert(ay * bx * az == az * bx * ay) by (nonlinear_arith);
    assert((ay * bz - az * by) * bx == ay * bz * bx - az * by * bx) by (nonlinear_arith);
    assert((az * bx - ax * bz) * by == az * bx * by - ax * bz * by) by (nonlinear_arith);
    assert((ax * by - ay * bx) * bz == ax * by * bz - ay * bx * bz) by (nonlinear_arith);
    assert(az * bx * by == az * by * bx) by (nonlinear_arith);
    assert(ax * bz * by == ax * by * bz) by (nonlinear_arith);
    assert(ay * bx * bz == ay * bz * bx) by (nonlinear_arith);
}

/// A cross product is orthogonal to both of its operands.
pub proof fn cross_is_orthogonal(a: Vec3, b: Vec3)
    ensures
        a.cross(b).dot(a) == 0,
        a.cross(b).dot(b) == 0,
{
    cyclic_sum_vanishes(a.x, a.y, a.z, b.x, b.y, b.z);
}

/// One coordinate of the double cross product, with `p` and `q` standing for
/// the two coordinates that the cross products mix and `o` for the one that
/// is computed.
proof fn double_cross_coordinate(ao: int, ap: int, aq: int, bo: int, bp: int, bq: int)
    ensures
        (aq * bo - ao * bq) * bq - (ao * bp - ap * bo) * bp == bo * (ao * bo + ap * bp + aq * bq)
            + -(ao * (bo * bo + bp * bp + bq * bq)),
{
    assert((aq * bo - ao * bq) * bq == aq * bo * bq - ao * bq * bq) by (nonlinear_arith);
    assert((ao * bp - ap * bo) * bp == ao * bp * bp - ap * bo * bp) by (nonlinear_arith);
    distribute_over_three(bo, ao * bo, ap * bp, aq * bq);
    assert(bo * (ao * bo) == ao * bo * bo) by (nonlinear_arith);
    assert(bo * (ap * bp) == ap * bo * bp) by (nonlinear_arith);
    assert(bo * (aq * bq) == aq * bo * bq) by (nonlinear_arith);
    distribute_over_three(ao, bo * bo, bp * bp, bq * bq);
    assert(ao * (bo * bo) == ao * bo * bo) by (nonlinear_arith);
    assert(ao * (bp * bp) == ao * bp * bp) by (nonlinear_arith);
    assert(ao * (bq * bq) == ao * bq * bq) by (nonlinear_arith);
}

/// The double cross product `(a × b) × b` is `b (a · b) - a (b · b)`.
pub proof fn double_cross(a: Vec3, b: Vec3)
    ensures
        a.cross(b).cross(b) == b.scale(a.dot(b)).plus(a.scale(b.dot(b)).negate()),
{
    double_cross_coordinate(a.x, a.y, a.z, b.x, b.y, b.z);
    double_cross_coordinate(a.y, a.z, a.x, b.y, b.z, b.x);
    double_cross_coordinate(a.z, a.x, a.y, b.z, b.x, b.y);
}

/// Crossing a cross product twice more with its right operand gives it back,
/// scaled: `((a × b) × b) × b` is `-(b · b) (a × b)`.
pub proof fn triple_cross(a: Vec3, b: Vec3)
    ensures
        a.cross(b).cross(b).cross(b) == a.cross(b).scale(-b.dot(b)),
{
    let t = a.cross(b);
    let n = b.dot(b);
    // (t × b) × b = b (t · b) - t (b · b), and t is orthogonal to b
    double_cross(t, b);
    cross_is_orthogonal(a, b);
    signs(t.x, n);
    signs(t.y, n);
    signs(t.z, n);
}

} // verus!
