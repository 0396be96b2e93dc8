//! The algebra of quaternion rotations, proved over the mathematical models.

use vstd::prelude::*;

use crate::product_laws::{
    compose_in_vector_form, compose_is_associative, conjugate_is_involution, conjugate_of_product,
    unit_is_axis_aligned, units_are_closed,
};
use crate::quaternions::Quat;
use crate::ring::{signs, times_unit};
use crate::vector::Vec3;
use crate::vector_laws::{
    cross_anticommutes, cross_is_orthogonal, cross_of_scaled, cross_of_sum, cross_with_opposite,
    dot_of_scaled, dot_of_sum, double_cross, opposite_cross, triple_cross,
};

verus! {

/// The identity quaternion leaves every vector where it is, in both
/// conventions.
pub proof fn identity_rotates_nothing(v: Vec3)
    ensures
        Quat::identity().rotate_alias(v) == v,
        Quat::identity().rotate_alibi(v) == v,
{
}

/// The two conventions are each other's inverse view: moving a vector by `q`
/// is seeing it from the frame rotated by the conjugate of `q`, and seeing it
/// from the frame rotated by `q` is moving it by the conjugate.
pub proof fn alibi_is_alias_of_conjugate(q: Quat, v: Vec3)
    ensures
        q.rotate_alibi(v) == q.conjugate().rotate_alias(v),
        q.rotate_alias(v) == q.conjugate().rotate_alibi(v),
{
    let u = q.v;
    cross_with_opposite(v, u);
    cross_with_opposite(u.cross(v), u);
    opposite_cross(u, v);
    opposite_cross(u, v.cross(u));
}

/// The cross product of an alias-rotated vector with the vector part `u` of
/// the quaternion, in terms of `t = v × u` and `r = t × u`.
proof fn rotated_cross_axis(q: Quat, v: Vec3)
    ensures
        q.rotate_alias(v).cross(q.v) == v.cross(q.v).plus(
            v.cross(q.v).cross(q.v).scale(2).scale(q.s),
        ).plus(v.cross(q.v).scale(-q.v.dot(q.v)).scale(2)),
{
    let u = q.v;
    let t = v.cross(u);
    let r = t.cross(u);
    cross_of_sum(v.plus(t.scale(2).scale(q.s)), r.scale(2), u);
    cross_of_sum(v, t.scale(2).scale(q.s), u);
    cross_of_scaled(t.scale(2), q.s, u);
    cross_of_scaled(t, 2, u);
    cross_of_scaled(r, 2, u);
    triple_cross(v, u);
}

/// One coordinate of an alias rotation by `q` followed by one by its
/// conjugate, with `v`, `t` and `r` the coordinates of the vector, of
/// `t = v × u` and of `r = t × u`, and `n = u · u`.
proof fn round_trip_coordinate(v: int, t: int, r: int, s: int, n: int)
    ensures
        (v + (t * 2) * s + r * 2) + ((-(t + (r * 2) * s + (t * (-n)) * 2)) * 2) * s + (r + ((t * (
        -n)) * 2) * s + (r * (-n)) * 2) * 2 == v + r * (4 * (1 - (s * s + n))),
{
    let ts = t * s;
    let rs = r * s;
    let rss = r * s * s;
    let tn = t * n;
    let tns = t * n * s;
    let rn = r * n;
    assert((t * 2) * s == 2 * ts) by (nonlinear_arith)
        requires
            ts == t * s,
    ;
    assert((r * 2) * s == 2 * rs) by (nonlinear_arith)
        requires
            rs == r * s,
    ;
    assert(t * (-n) == -tn) by (nonlinear_arith)
        requires
            tn == t * n,
    ;
    assert(r * (-n) == -rn) by (nonlinear_arith)
        requires
            rn == r * n,
    ;
    assert(((-(t + 2 * rs + (-tn) * 2)) * 2) * s == -2 * ts - 4 * rss + 4 * tns)
        by (nonlinear_arith)
        requires
            ts == t * s,
            rs == r * s,
            rss == r * s * s,
            tn == t * n,
            tns == t * n * s,
    ;
    assert(((-tn) * 2) * s == -2 * tns) by (nonlinear_arith)
        requires
            tn == t * n,
            tns == t * n * s,
    ;
    assert(r * (4 * (1 - (s * s + n))) == 4 * r - 4 * rss - 4 * rn) by (nonlinear_arith)
        requires
            rss == r * s * s,
            rn == r * n,
    ;
}

/// Seeing a vector from the frame rotated by `q` and then from the frame
/// rotated by the conjugate of `q` gives the vector back, up to a term that
/// is a multiple of `1 - |q|²` and so vanishes for a unit quaternion:
/// `v + 4 (1 - |q|²) (v × u) × u`, with `u` the vector part of `q`.
pub proof fn alias_round_trip(q: Quat, v: Vec3)
    ensures
        q.conjugate().rotate_alias(q.rotate_alias(v)) == v.plus(
            v.cross(q.v).cross(q.v).scale(4 * (1 - q.norm_squared())),
        ),
{
    let u = q.v;
    let s = q.s;
    let n = u.dot(u);
    let t = v.cross(u);
    let r = t.cross(u);
    let w = q.rotate_alias(v);
    let x = w.cross(u);
    rotated_cross_axis(q, v);
    assert(x == t.plus(r.scale(2).scale(s)).plus(t.scale(-n).scale(2)));
    // the first cross product of the second rotation is -x
    let t2 = w.cross(u.negate());
    cross_with_opposite(w, u);
    cross_anticommutes(u, w);
    assert(t2 == x.negate());
    // the second one is x × u
    let r2 = t2.cross(u.negate());
    cross_with_opposite(t2, u);
    opposite_cross(x, u);
    assert(r2 == x.cross(u));
    cross_of_sum(t.plus(r.scale(2).scale(s)), t.scale(-n).scale(2), u);
    cross_of_sum(t, r.scale(2).scale(s), u);
    cross_of_scaled(r.scale(2), s, u);
    cross_of_scaled(r, 2, u);
    cross_of_scaled(t.scale(-n), 2, u);
    cross_of_scaled(t, -n, u);
    triple_cross(v, u);
    assert(r2 == r.plus(t.scale(-n).scale(2).scale(s)).plus(r.scale(-n).scale(2)));
    round_trip_coordinate(v.x, t.x, r.x, s, n);
    round_trip_coordinate(v.y, t.y, r.y, s, n);
    round_trip_coordinate(v.z, t.z, r.z, s, n);
}

/// Rotating by a unit quaternion and then by its inverse gives the vector
/// back, in the alias convention and in the alibi convention, whichever of
/// the two rotations comes first.
pub proof fn rotation_by_inverse_undoes(q: Quat, v: Vec3)
    requires
        q.is_unit(),
    ensures
        q.conjugate().rotate_alias(q.rotate_alias(v)) == v,
        q.rotate_alias(q.conjugate().rotate_alias(v)) == v,
        q.conjugate().rotate_alibi(q.rotate_alibi(v)) == v,
        q.rotate_alibi(q.conjugate().rotate_alibi(v)) == v,
{
    let c = q.conjugate();
    conjugate_is_involution(q);
    alias_round_trip(q, v);
    alias_round_trip(c, v);
    let r = v.cross(q.v).cross(q.v);
    let rc = v.cross(c.v).cross(c.v);
    assert(r.scale(0) == Vec3::zero());
    assert(rc.scale(0) == Vec3::zero());
    assert(c.rotate_alias(q.rotate_alias(v)) == v);
    assert(q.rotate_alias(c.rotate_alias(v)) == v);
    alibi_is_alias_of_conjugate(q, v);
    alibi_is_alias_of_conjugate(c, q.rotate_alibi(v));
    alibi_is_alias_of_conjugate(c, v);
    alibi_is_alias_of_conjugate(q, c.rotate_alibi(v));
}

/// With one and the same unit quaternion, the alias rotation undoes the
/// alibi rotation and the alibi rotation undoes the alias rotation.
pub proof fn alias_and_alibi_cancel(q: Quat, v: Vec3)
    requires
        q.is_unit(),
    ensures
        q.rotate_alias(q.rotate_alibi(v)) == v,
        q.rotate_alibi(q.rotate_alias(v)) == v,
{
    rotation_by_inverse_undoes(q, v);
    alibi_is_alias_of_conjugate(q, v);
    alibi_is_alias_of_conjugate(q, q.rotate_alias(v));
}

/// The cross product with a vector of coordinates -1, 0 or 1, in both orders.
proof fn cross_with_unit_coordinates(a: Vec3, u: Vec3)
    requires
        -1 <= u.x <= 1,
        -1 <= u.y <= 1,
        -1 <= u.z <= 1,
    ensures
        a.cross(u).x == a.y * u.z - a.z * u.y,
        a.y * u.z == (if u.z == 0 { 0 } else if u.z == 1 { a.y } else { -a.y }),
        a.z * u.y == (if u.y == 0 { 0 } else if u.y == 1 { a.z } else { -a.z }),
        a.z * u.x == (if u.x == 0 { 0 } else if u.x == 1 { a.z } else { -a.z }),
        a.x * u.z == (if u.z == 0 { 0 } else if u.z == 1 { a.x } else { -a.x }),
        a.x * u.y == (if u.y == 0 { 0 } else if u.y == 1 { a.x } else { -a.x }),
        a.y * u.x == (if u.x == 0 { 0 } else if u.x == 1 { a.y } else { -a.y }),
        u.y * a.z == a.z * u.y,
        u.z * a.y == a.y * u.z,
        u.z * a.x == a.x * u.z,
        u.x * a.z == a.z * u.x,
        u.x * a.y == a.y * u.x,
        u.y * a.x == a.x * u.y,
{
    times_unit(a.y, u.z);
    times_unit(a.z, u.y);
    times_unit(a.z, u.x);
    times_unit(a.x, u.z);
    times_unit(a.x, u.y);
    times_unit(a.y, u.x);
}

/// A unit quaternion rotates every vector with coordinates strictly between
/// `-2^62` and `2^62` without leaving the range of an `i64` at any step.
pub proof fn unit_rotation_is_representable(q: Quat, v: Vec3)
    requires
        q.is_unit(),
        -0x4000_0000_0000_0000 < v.x < 0x4000_0000_0000_0000,
        -0x4000_0000_0000_0000 < v.y < 0x4000_0000_0000_0000,
        -0x4000_0000_0000_0000 < v.z < 0x4000_0000_0000_0000,
    ensures
        q.alias_representable(v),
        q.alibi_representable(v),
{
    let u = q.v;
    unit_is_axis_aligned(q);
    times_unit(q.s, q.s);
    times_unit(u.x, u.x);
    times_unit(u.y, u.y);
    times_unit(u.z, u.z);
    // alias
    let t = v.cross(u);
    cross_with_unit_coordinates(v, u);
    cross_with_unit_coordinates(t, u);
    times_unit(t.x * 2, q.s);
    times_unit(t.y * 2, q.s);
    times_unit(t.z * 2, q.s);
    assert(q.alias_representable(v));
    // alibi
    let w = u.cross(v);
    cross_with_unit_coordinates(w, u);
    times_unit(w.x * 2, q.s);
    times_unit(w.y * 2, q.s);
    times_unit(w.z * 2, q.s);
    assert(q.alibi_representable(v));
}

/// One coordinate of the sandwich product, with `v`, `t`, `r` and `u` the
/// coordinates of the vector, of `t = v × u`, of `r = t × u` and of the vector
/// part, `d = v · u` and `n = u · u`.
proof fn sandwich_coordinate(v: int, t: int, r: int, u: int, s: int, d: int, n: int)
    requires
        r == u * d + -(v * n),
    ensures
        (v * s + t) * s + u * d + (t * s + r) == (v + (t * 2) * s + r * 2) + v * ((s * s + n) - 1),
{
    assert((v * s + t) * s == v * s * s + t * s) by (nonlinear_arith);
    assert(v * ((s * s + n) - 1) == v * s * s + v * n - v) by (nonlinear_arith);
    assert((t * 2) * s == 2 * (t * s)) by (nonlinear_arith);
}

/// The sandwich product `q* (0, v) q` of a vector between a quaternion and
/// its conjugate is a pure quaternion, and its vector part is the alias
/// rotation of `v` by `q` plus `(|q|² - 1) v`: for a unit quaternion, the
/// alias rotation itself.
pub proof fn sandwich_is_alias(q: Quat, v: Vec3)
    ensures
        q.conjugate().compose(Quat::pure(v)).compose(q) == Quat::pure(
            q.rotate_alias(v).plus(v.scale(q.norm_squared() - 1)),
        ),
{
    let u = q.v;
    let s = q.s;
    let t = v.cross(u);
    let r = t.cross(u);
    let d = v.dot(u);
    let n = u.dot(u);
    // the first product is (v · u, v s + v × u)
    let m = q.conjugate().compose(Quat::pure(v));
    compose_in_vector_form(q.conjugate(), Quat::pure(v));
    opposite_cross(u, v);
    signs(u.x, v.x);
    signs(u.y, v.y);
    signs(u.z, v.z);
    let e = Quat::pure(v);
    assert(s * e.s == 0 && (-u.x) * e.s == 0 && (-u.y) * e.s == 0 && (-u.z) * e.s == 0)
        by (nonlinear_arith)
        requires
            e.s == 0,
    ;
    assert(m.s == d);
    assert(m.v == v.scale(s).plus(t));
    // the second one has the scalar part (v · u) s - (v s + v × u) · u = 0
    compose_in_vector_form(m, q);
    dot_of_sum(v.scale(s), t, u);
    dot_of_scaled(v, s, u);
    cross_is_orthogonal(v, u);
    assert(m.v.dot(u) == d * s);
    // and the vector part (v s + t) s + u (v · u) + (t s + r)
    cross_of_sum(v.scale(s), t, u);
    cross_of_scaled(v, s, u);
    assert(m.v.cross(u) == t.scale(s).plus(r));
    double_cross(v, u);
    sandwich_coordinate(v.x, t.x, r.x, u.x, s, d, n);
    sandwich_coordinate(v.y, t.y, r.y, u.y, s, d, n);
    sandwich_coordinate(v.z, t.z, r.z, u.z, s, d, n);
}

/// Rotating by a Hamilton product of unit quaternions is rotating by its
/// factors in turn: in the alias convention by the left factor first, in the
/// alibi convention by the right factor first.
pub proof fn product_rotates_in_turn(q: Quat, p: Quat, v: Vec3)
    requires
        q.is_unit(),
        p.is_unit(),
    ensures
        q.compose(p).rotate_alias(v) == p.rotate_alias(q.rotate_alias(v)),
        q.compose(p).rotate_alibi(v) == q.rotate_alibi(p.rotate_alibi(v)),
{
    alias_by_product(q, p, v);
    let cq = q.conjugate();
    let cp = p.conjugate();
    conjugate_is_involution(q);
    conjugate_is_involution(p);
    conjugate_of_product(q, p);
    alias_by_product(cp, cq, v);
    alibi_is_alias_of_conjugate(q.compose(p), v);
    alibi_is_alias_of_conjugate(p, v);
    alibi_is_alias_of_conjugate(q, p.rotate_alibi(v));
}

/// The sandwich product by a Hamilton product is the sandwich product by
/// its right factor of the sandwich product by its left factor, for any two
/// quaternions: `(q p)* e (q p) = p* (q* e q) p`.
pub proof fn sandwich_by_product(q: Quat, p: Quat, e: Quat)
    ensures
        q.compose(p).conjugate().compose(e).compose(q.compose(p)) == p.conjugate().compose(
            q.conjugate().compose(e).compose(q),
        ).compose(p),
{
    let cq = q.conjugate();
    let cp = p.conjugate();
    conjugate_of_product(q, p);
    compose_is_associative(cp, cq, e);
    compose_is_associative(cp, cq.compose(e), q.compose(p));
    compose_is_associative(cq.compose(e), q, p);
    compose_is_associative(cp, cq.compose(e).compose(q), p);
}

/// The alias rotation by a Hamilton product of unit quaternions is the alias
/// rotation by the left factor followed by the one by the right factor.
proof fn alias_by_product(q: Quat, p: Quat, v: Vec3)
    requires
        q.is_unit(),
        p.is_unit(),
    ensures
        q.compose(p).rotate_alias(v) == p.rotate_alias(q.rotate_alias(v)),
{
    let qp = q.compose(p);
    let w = q.rotate_alias(v);
    units_are_closed(q, p);
    // for a unit quaternion the sandwich product is the alias rotation
    sandwich_is_alias(qp, v);
    sandwich_is_alias(q, v);
    sandwich_is_alias(p, w);
    unscaled(v);
    unscaled(w);
    sandwich_by_product(q, p, Quat::pure(v));
}

/// A vector scaled by zero is the zero vector, and adding it changes nothing.
proof fn unscaled(v: Vec3)
    ensures
        v.scale(0) == Vec3::zero(),
        forall|a: Vec3| a.plus(v.scale(0)) == a,
{
}

} // verus!
