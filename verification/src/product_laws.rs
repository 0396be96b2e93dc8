//! The algebra of the Hamilton product, proved over the mathematical model.

use vstd::prelude::*;

use crate::quaternions::Quat;
use crate::ring::{
    arrange, pair, product_of_sums, signs, small_square, spread, square_of_four,
};
use crate::vector::Vec3;

verus! {

/// The identity is a unit quaternion.
pub proof fn identity_is_unit()
    ensures
        Quat::identity().is_unit(),
{
}

/// The identity is neutral for the Hamilton product, on either side; so the
/// identity composed with itself is the identity.
pub proof fn identity_is_neutral(q: Quat)
    ensures
        Quat::identity().compose(q) == q,
        q.compose(Quat::identity()) == q,
        Quat::identity().compose(Quat::identity()) == Quat::identity(),
{
}

/// A quaternion composed with its conjugate, in either order, is the scalar
/// quaternion of its squared norm.
pub proof fn conjugate_product(q: Quat)
    ensures
        q.compose(q.conjugate()) == (Quat { s: q.norm_squared(), v: Vec3::zero() }),
        q.conjugate().compose(q) == (Quat { s: q.norm_squared(), v: Vec3::zero() }),
{
    let a = q.compose(q.conjugate());
    let b = q.conjugate().compose(q);
    assert(a.s == q.norm_squared() && a.v.x == 0 && a.v.y == 0 && a.v.z == 0
        && b.s == q.norm_squared() && b.v.x == 0 && b.v.y == 0 && b.v.z == 0) by (nonlinear_arith)
        requires
            a == q.compose(q.conjugate()),
            b == q.conjugate().compose(q),
    ;
}

/// A unit quaternion composed with its conjugate, in either order, is the
/// identity: the conjugate of a unit quaternion is its inverse.
pub proof fn unit_times_inverse_is_identity(q: Quat)
    requires
        q.is_unit(),
    ensures
        q.compose(q.conjugate()) == Quat::identity(),
        q.conjugate().compose(q) == Quat::identity(),
{
    conjugate_product(q);
}

/// Conjugating twice gives the quaternion back, and conjugating keeps the
/// norm: the conjugate of a unit quaternion is a unit quaternion.
pub proof fn conjugate_is_involution(q: Quat)
    ensures
        q.conjugate().conjugate() == q,
        q.conjugate().norm_squared() == q.norm_squared(),
        q.conjugate().is_unit() == q.is_unit(),
{
    assert((-q.v.x) * (-q.v.x) == q.v.x * q.v.x) by (nonlinear_arith);
    assert((-q.v.y) * (-q.v.y) == q.v.y * q.v.y) by (nonlinear_arith);
    assert((-q.v.z) * (-q.v.z) == q.v.z * q.v.z) by (nonlinear_arith);
}

/// Euler's four-square identity, for the four parts of a Hamilton product:
/// the sum of their squares is the product of the two sums of squares.
proof fn four_squares(a0: int, a1: int, a2: int, a3: int, b0: int, b1: int, b2: int, b3: int)
    ensures
        (a0 * b0 - (a1 * b1 + a2 * b2 + a3 * b3)) * (a0 * b0 - (a1 * b1 + a2 * b2 + a3 * b3)) + ((b0
            * a1 + b1 * a0 - b2 * a3 + b3 * a2) * (b0 * a1 + b1 * a0 - b2 * a3 + b3 * a2) + (b0 * a2
            + b1 * a3 + b2 * a0 - b3 * a1) * (b0 * a2 + b1 * a3 + b2 * a0 - b3 * a1) + (b0 * a3 - b1
            * a2 + b2 * a1 + b3 * a0) * (b0 * a3 - b1 * a2 + b2 * a1 + b3 * a0)) == (a0 * a0 + (a1
            * a1 + a2 * a2 + a3 * a3)) * (b0 * b0 + (b1 * b1 + b2 * b2 + b3 * b3)),
{
    // Each square is spread into its ten products and the right-hand side into
    // its sixteen; every product of four numbers is then written in one way,
    // and the mixed ones cancel between the four parts.
    square_of_four(a0 * b0, a1 * b1, a2 * b2, a3 * b3);
    square_of_four(b0 * a1, b1 * a0, b2 * a3, b3 * a2);
    square_of_four(b0 * a2, b1 * a3, b2 * a0, b3 * a1);
    square_of_four(b0 * a3, b1 * a2, b2 * a1, b3 * a0);
    pair(a0, a0, b0, b0);
    pair(a0, a0, b1, b1);
    pair(a0, a0, b2, b2);
    pair(a0, a0, b3, b3);
    pair(a0, a1, b0, b1);
    pair(a0, a1, b2, b3);
    pair(a0, a2, b0, b2);
    pair(a0, a2, b1, b3);
    pair(a0, a3, b0, b3);
    pair(a0, a3, b1, b2);
    pair(a1, a1, b0, b0);
    pair(a1, a1, b1, b1);
    pair(a1, a1, b2, b2);
    pair(a1, a1, b3, b3);
    pair(a1, a2, b0, b3);
    pair(a1, a2, b1, b2);
    pair(a1, a3, b0, b2);
    pair(a1, a3, b1, b3);
    pair(a2, a2, b0, b0);
    pair(a2, a2, b1, b1);
    pair(a2, a2, b2, b2);
    pair(a2, a2, b3, b3);
    pair(a2, a3, b0, b1);
    pair(a2, a3, b2, b3);
    pair(a3, a3, b0, b0);
    pair(a3, a3, b1, b1);
    pair(a3, a3, b2, b2);
    pair(a3, a3, b3, b3);
    product_of_sums(a0 * a0, a1 * a1, a2 * a2, a3 * a3, b0 * b0, b1 * b1, b2 * b2, b3 * b3);
}

/// The norm of a Hamilton product is the product of the norms.
pub proof fn norm_is_multiplicative(p: Quat, q: Quat)
    ensures
        p.compose(q).norm_squared() == p.norm_squared() * q.norm_squared(),
{
    four_squares(p.s, p.v.x, p.v.y, p.v.z, q.s, q.v.x, q.v.y, q.v.z);
}

/// The Hamilton product of two unit quaternions is a unit quaternion.
pub proof fn units_are_closed(p: Quat, q: Quat)
    requires
        p.is_unit(),
        q.is_unit(),
    ensures
        p.compose(q).is_unit(),
{
    norm_is_multiplicative(p, q);
    assert(p.norm_squared() * q.norm_squared() == 1) by (nonlinear_arith)
        requires
            p.norm_squared() == 1,
            q.norm_squared() == 1,
    ;
}

/// The parts of a unit quaternion are -1, 0 or 1, and exactly one of them is
/// not zero: the unit quaternions of the lattice are the identity, the half
/// turns about the three axes, and their opposites.
pub proof fn unit_is_axis_aligned(q: Quat)
    requires
        q.is_unit(),
    ensures
        -1 <= q.s <= 1,
        -1 <= q.v.x <= 1,
        -1 <= q.v.y <= 1,
        -1 <= q.v.z <= 1,
        q.s * q.s + q.v.x * q.v.x + q.v.y * q.v.y + q.v.z * q.v.z == 1,
        q.representable(),
        q.conjugate().representable(),
{
    assert(q.s * q.s >= 0) by (nonlinear_arith);
    assert(q.v.x * q.v.x >= 0) by (nonlinear_arith);
    assert(q.v.y * q.v.y >= 0) by (nonlinear_arith);
    assert(q.v.z * q.v.z >= 0) by (nonlinear_arith);
    small_square(q.s);
    small_square(q.v.x);
    small_square(q.v.y);
    small_square(q.v.z);
}

/// The conjugate of a Hamilton product is the product of the conjugates in
/// the other order.
pub proof fn conjugate_of_product(p: Quat, q: Quat)
    ensures
        p.compose(q).conjugate() == q.conjugate().compose(p.conjugate()),
{
    signs(p.s, q.s);
    signs(p.s, q.v.x);
    signs(p.s, q.v.y);
    signs(p.s, q.v.z);
    signs(p.v.x, q.s);
    signs(p.v.x, q.v.x);
    signs(p.v.x, q.v.y);
    signs(p.v.x, q.v.z);
    signs(p.v.y, q.s);
    signs(p.v.y, q.v.x);
    signs(p.v.y, q.v.y);
    signs(p.v.y, q.v.z);
    signs(p.v.z, q.s);
    signs(p.v.z, q.v.x);
    signs(p.v.z, q.v.y);
    signs(p.v.z, q.v.z);
    signs(q.v.x, p.v.x);
    signs(q.v.y, p.v.y);
    signs(q.v.z, p.v.z);
}

/// The Hamilton product written with the dot and cross products of the
/// vector parts: `(s₁ s₂ - u₁ · u₂, u₁ s₂ + u₂ s₁ + u₁ × u₂)`.
pub proof fn compose_in_vector_form(p: Quat, q: Quat)
    ensures
        p.compose(q) == (Quat {
            s: p.s * q.s - p.v.dot(q.v),
            v: p.v.scale(q.s).plus(q.v.scale(p.s)).plus(p.v.cross(q.v)),
        }),
{
    signs(p.v.x, q.s);
    signs(p.v.y, q.s);
    signs(p.v.z, q.s);
    signs(p.v.x, q.v.y);
    signs(p.v.x, q.v.z);
    signs(p.v.y, q.v.x);
    signs(p.v.y, q.v.z);
    signs(p.v.z, q.v.x);
    signs(p.v.z, q.v.y);
}

/// The Hamilton product is associative.
pub proof fn compose_is_associative(a: Quat, b: Quat, c: Quat)
    ensures
        a.compose(b).compose(c) == a.compose(b.compose(c)),
{
    let (a0, a1, a2, a3) = (a.s, a.v.x, a.v.y, a.v.z);
    let (b0, b1, b2, b3) = (b.s, b.v.x, b.v.y, b.v.z);
    let (c0, c1, c2, c3) = (c.s, c.v.x, c.v.y, c.v.z);
    spread(c0, a0 * b0, a1 * b1, a2 * b2, a3 * b3);
    spread(c1, b0 * a1, b1 * a0, b2 * a3, b3 * a2);
    spread(c2, b0 * a2, b1 * a3, b2 * a0, b3 * a1);
    spread(c3, b0 * a3, b1 * a2, b2 * a1, b3 * a0);
    spread(c0, b0 * a1, b1 * a0, b2 * a3, b3 * a2);
    spread(c1, a0 * b0, a1 * b1, a2 * b2, a3 * b3);
    spread(c2, b0 * a3, b1 * a2, b2 * a1, b3 * a0);
    spread(c3, b0 * a2, b1 * a3, b2 * a0, b3 * a1);
    spread(c0, b0 * a2, b1 * a3, b2 * a0, b3 * a1);
    spread(c1, b0 * a3, b1 * a2, b2 * a1, b3 * a0);
    spread(c2, a0 * b0, a1 * b1, a2 * b2, a3 * b3);
    spread(c3, b0 * a1, b1 * a0, b2 * a3, b3 * a2);
    spread(c0, b0 * a3, b1 * a2, b2 * a1, b3 * a0);
    spread(c1, b0 * a2, b1 * a3, b2 * a0, b3 * a1);
    spread(c2, b0 * a1, b1 * a0, b2 * a3, b3 * a2);
    spread(c3, a0 * b0, a1 * b1, a2 * b2, a3 * b3);
    spread(a0, b0 * c0, b1 * c1, b2 * c2, b3 * c3);
    spread(a1, c0 * b1, c1 * b0, c2 * b3, c3 * b2);
    spread(a2, c0 * b2, c1 * b3, c2 * b0, c3 * b1);
    spread(a3, c0 * b3, c1 * b2, c2 * b1, c3 * b0);
    spread(a1, b0 * c0, b1 * c1, b2 * c2, b3 * c3);
    spread(a0, c0 * b1, c1 * b0, c2 * b3, c3 * b2);
    spread(a3, c0 * b2, c1 * b3, c2 * b0, c3 * b1);
    spread(a2, c0 * b3, c1 * b2, c2 * b1, c3 * b0);
    spread(a2, b0 * c0, b1 * c1, b2 * c2, b3 * c3);
    spread(a3, c0 * b1, c1 * b0, c2 * b3, c3 * b2);
    spread(a0, c0 * b2, c1 * b3, c2 * b0, c3 * b1);
    spread(a1, c0 * b3, c1 * b2, c2 * b1, c3 * b0);
    spread(a3, b0 * c0, b1 * c1, b2 * c2, b3 * c3);
    spread(a2, c0 * b1, c1 * b0, c2 * b3, c3 * b2);
    spread(a1, c0 * b2, c1 * b3, c2 * b0, c3 * b1);
    spread(a0, c0 * b3, c1 * b2, c2 * b1, c3 * b0);
    arrange(a0, b0, c0);
    arrange(a0, b0, c1);
    arrange(a0, b0, c2);
    arrange(a0, b0, c3);
    arrange(a0, b1, c0);
    arrange(a0, b1, c1);
    arrange(a0, b1, c2);
    arrange(a0, b1, c3);
    arrange(a0, b2, c0);
    arrange(a0, b2, c1);
    arrange(a0, b2, c2);
    arrange(a0, b2, c3);
    arrange(a0, b3, c0);
    arrange(a0, b3, c1);
    arrange(a0, b3, c2);
    arrange(a0, b3, c3);
    arrange(a1, b0, c0);
    arrange(a1, b0, c1);
    arrange(a1, b0, c2);
    arrange(a1, b0, c3);
    arrange(a1, b1, c0);
    arrange(a1, b1, c1);
    arrange(a1, b1, c2);
    arrange(a1, b1, c3);
    arrange(a1, b2, c0);
    arrange(a1, b2, c1);
    arrange(a1, b2, c2);
    arrange(a1, b2, c3);
    arrange(a1, b3, c0);
    arrange(a1, b3, c1);
    arrange(a1, b3, c2);
    arrange(a1, b3, c3);
    arrange(a2, b0, c0);
    arrange(a2, b0, c1);
    arrange(a2, b0, c2);
    arrange(a2, b0, c3);
    arrange(a2, b1, c0);
    arrange(a2, b1, c1);
    arrange(a2, b1, c2);
    arrange(a2, b1, c3);
    arrange(a2, b2, c0);
    arrange(a2, b2, c1);
    arrange(a2, b2, c2);
    arrange(a2, b2, c3);
    arrange(a2, b3, c0);
    arrange(a2, b3, c1);
    arrange(a2, b3, c2);
    arrange(a2, b3, c3);
    arrange(a3, b0, c0);
    arrange(a3, b0, c1);
    arrange(a3, b0, c2);
    arrange(a3, b0, c3);
    arrange(a3, b1, c0);
    arrange(a3, b1, c1);
    arrange(a3, b1, c2);
    arrange(a3, b1, c3);
    arrange(a3, b2, c0);
    arrange(a3, b2, c1);
    arrange(a3, b2, c2);
    arrange(a3, b2, c3);
    arrange(a3, b3, c0);
    arrange(a3, b3, c1);
    arrange(a3, b3, c2);
    arrange(a3, b3, c3);
}

} // verus!
