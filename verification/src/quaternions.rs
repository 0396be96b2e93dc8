//! Quaternions as rotations of lattice vectors.
//!
//! A quaternion `(s, v)` of unit norm stands for a rotation. It acts on a
//! vector in two conventions: the alias (passive) one, which gives the
//! coordinates of the same vector in the rotated frame, and the alibi (active)
//! one, which moves the vector while the frame stays.

use vstd::prelude::*;

use crate::exact::{narrow, product, representable};
use crate::product_laws::{conjugate_is_involution, identity_is_unit, units_are_closed};
use crate::vector::{Vec3, Vector3};

verus! {

/// A quaternion with unbounded integer parts: the mathematical value of a
/// [`Quaternion`].
pub ghost struct Quat {
    /// The scalar part.
    pub s: int,
    /// The vector part.
    pub v: Vec3,
}

impl Quat {
    /// The rotation that moves nothing.
    pub open spec fn identity() -> Quat {
        Quat { s: 1, v: Vec3::zero() }
    }

    /// The quaternion with no scalar part and the vector part `v`.
    pub open spec fn pure(v: Vec3) -> Quat {
        Quat { s: 0, v }
    }

    /// The scalar part kept and the vector part negated: the inverse of a
    /// unit quaternion.
    pub open spec fn conjugate(self) -> Quat {
        Quat { s: self.s, v: self.v.negate() }
    }

    /// The square of the norm.
    pub open spec fn norm_squared(self) -> int {
        self.s * self.s + self.v.dot(self.v)
    }

    /// Whether the norm is one.
    pub open spec fn is_unit(self) -> bool {
        self.norm_squared() == 1
    }

    /// The Hamilton product `self * rhs`.
    pub open spec fn compose(self, rhs: Quat) -> Quat {
        Quat {
            s: self.s * rhs.s - self.v.dot(rhs.v),
            v: Vec3 {
                x: rhs.s * self.v.x + rhs.v.x * self.s - rhs.v.y * self.v.z + rhs.v.z * self.v.y,
                y: rhs.s * self.v.y + rhs.v.x * self.v.z + rhs.v.y * self.s - rhs.v.z * self.v.x,
                z: rhs.s * self.v.z - rhs.v.x * self.v.y + rhs.v.y * self.v.x + rhs.v.z * self.s,
            },
        }
    }

    /// The vector `v` seen from the frame rotated by `self`:
    /// `v + 2 s (v × u) + 2 (v × u) × u`, with `u` the vector part.
    pub open spec fn rotate_alias(self, v: Vec3) -> Vec3 {
        let t = v.cross(self.v);
        v.plus(t.scale(2).scale(self.s)).plus(t.cross(self.v).scale(2))
    }

    /// The vector `v` moved by the rotation `self`:
    /// `v + 2 s (u × v) + 2 u × (u × v)`, with `u` the vector part.
    pub open spec fn rotate_alibi(self, v: Vec3) -> Vec3 {
        let t = self.v.cross(v);
        v.plus(t.scale(2).scale(self.s)).plus(self.v.cross(t).scale(2))
    }

    /// Whether all four parts can be held in an `i64`.
    pub open spec fn representable(self) -> bool {
        representable(self.s) && self.v.representable()
    }

    /// Whether every vector that the alias rotation of `v` passes through,
    /// from the first cross product to the result, is representable.
    pub open spec fn alias_representable(self, v: Vec3) -> bool {
        let t = v.cross(self.v);
        &&& t.representable()
        &&& t.scale(2).representable()
        &&& t.scale(2).scale(self.s).representable()
        &&& t.cross(self.v).representable()
        &&& t.cross(self.v).scale(2).representable()
        &&& v.plus(t.scale(2).scale(self.s)).representable()
        &&& self.rotate_alias(v).representable()
    }

    /// Whether every vector that the alibi rotation of `v` passes through,
    /// from the first cross product to the result, is representable.
    pub open spec fn alibi_representable(self, v: Vec3) -> bool {
        let t = self.v.cross(v);
        &&& t.representable()
        &&& t.scale(2).representable()
        &&& t.scale(2).scale(self.s).representable()
        &&& self.v.cross(t).representable()
        &&& self.v.cross(t).scale(2).representable()
        &&& v.plus(t.scale(2).scale(self.s)).representable()
        &&& self.rotate_alibi(v).representable()
    }
}

/// A quaternion with `i64` parts. It stands for a rotation when its norm is
/// one, which no operation checks.
#[derive(Clone, Copy, Debug, PartialEq, Eq)]
pub struct Quaternion {
    pub scalar: i64,
    pub vector: Vector3,
}

impl View for Quaternion {
    type V = Quat;

    open spec fn view(&self) -> Quat {
        Quat { s: self.scalar as int, v: self.vector@ }
    }
}

impl Default for Quaternion {
    /// The identity.
    fn default() -> (q: Self)
        ensures
            q@ == Quat::identity(),
            q@.is_unit(),
    {
        Self::identity()
    }
}

impl Quaternion {
    /// The quaternion that holds the parts of `m`, for a representable `m`.
    pub open spec fn from_model(m: Quat) -> Quaternion
        recommends
            m.representable(),
    {
        Quaternion { scalar: m.s as i64, vector: Vector3::from_model(m.v) }
    }

    /// The rotation that moves nothing: scalar one, vector zero.
    pub fn identity() -> (q: Self)
        ensures
            q@ == Quat::identity(),
            q@.is_unit(),
    {
        proof {
            identity_is_unit();
        }
        Quaternion { scalar: 1, vector: Vector3::new([0, 0, 0]) }
    }

    /// The conjugate as a new quaternion, which is the inverse where `self`
    /// has unit norm. It exists where no vector part is `i64::MIN`.
    pub fn inverted(&self) -> (inverse: Self)
        requires
            self@.conjugate().representable(),
        ensures
            inverse@ == self@.conjugate(),
            inverse@.is_unit() == self@.is_unit(),
    {
        proof {
            conjugate_is_involution(self@);
        }
        Quaternion {
            scalar: self.scalar,
            vector: Vector3::new(
                [-self.vector.elem[0], -self.vector.elem[1], -self.vector.elem[2]],
            ),
        }
    }

    /// Replaces the quaternion by its conjugate.
    pub fn invert(&mut self)
        requires
            old(self)@.conjugate().representable(),
        ensures
            final(self)@ == old(self)@.conjugate(),
            final(self)@.is_unit() == old(self)@.is_unit(),
    {
        proof {
            conjugate_is_involution(self@);
        }
        self.vector = Vector3::new(
            [-self.vector.elem[0], -self.vector.elem[1], -self.vector.elem[2]],
        );
    }

    /// Rotates a vector in the alias (passive) convention: the same vector in
    /// the frame rotated by `self`.
    pub fn rotated_vec_alias(&self, vec: &Vector3) -> (rotated: Vector3)
        requires
            self@.alias_representable(vec@),
        ensures
            rotated@ == self@.rotate_alias(vec@),
    {
        let vec_cross_quat = vec.cross(&self.vector);
        let term1 = vec_cross_quat * 2 * self.scalar;
        let term2 = vec_cross_quat.cross(&self.vector) * 2;
        *vec + term1 + term2
    }

    /// Rotates a vector in the alibi (active) convention: the vector moved in
    /// space by `self`.
    pub fn rotated_vec_alibi(&self, vec: &Vector3) -> (rotated: Vector3)
        requires
            self@.alibi_representable(vec@),
        ensures
            rotated@ == self@.rotate_alibi(vec@),
    {
        let quat_cross_vec = self.vector.cross(vec);
        let term1 = quat_cross_vec * 2 * self.scalar;
        let term2 = self.vector.cross(&quat_cross_vec) * 2;
        *vec + term1 + term2
    }
}

impl vstd::std_specs::ops::MulSpecImpl<Quaternion> for Quaternion {
    open spec fn obeys_mul_spec() -> bool {
        true
    }

    open spec fn mul_req(self, rhs: Quaternion) -> bool {
        self@.compose(rhs@).representable()
    }

    open spec fn mul_spec(self, rhs: Quaternion) -> Quaternion {
        Quaternion::from_model(self@.compose(rhs@))
    }
}

impl core::ops::Mul<Quaternion> for Quaternion {
    type Output = Quaternion;

    /// The Hamilton product `self * rhs`, where each of its parts fits in an
    /// `i64`.
    fn mul(self, rhs: Quaternion) -> (composed: Quaternion)
        ensures
            composed@ == self@.compose(rhs@),
            self@.is_unit() && rhs@.is_unit() ==> composed@.is_unit(),
    {
        proof {
            if self@.is_unit() && rhs@.is_unit() {
                units_are_closed(self@, rhs@);
            }
        }
        let q0: i64 = self.scalar;
        let q1: i64 = self.vector.elem[0];
        let q2: i64 = self.vector.elem[1];
        let q3: i64 = self.vector.elem[2];
        let r0: i64 = rhs.scalar;
        let r1: i64 = rhs.vector.elem[0];
        let r2: i64 = rhs.vector.elem[1];
        let r3: i64 = rhs.vector.elem[2];
        // Each sum starts with a difference of two products, which always fits
        // in an `i128`; from there on every partial sum is the final value less
        // the products still to come.
        let w: i128 = product(q0, r0);
        let x: i128 = product(q1, r1);
        let y: i128 = product(q2, r2);
        let z: i128 = product(q3, r3);
        let scalar: i64 = narrow(w - x - y - z);
        let a: i128 = product(r0, q1);
        let b: i128 = product(r1, q0);
        let c: i128 = product(r2, q3);
        let d: i128 = product(r3, q2);
        let x: i64 = narrow(a - c + b + d);
        let a: i128 = product(r0, q2);
        let b: i128 = product(r1, q3);
        let c: i128 = product(r2, q0);
        let d: i128 = product(r3, q1);
        let y: i64 = narrow(a - d + b + c);
        let a: i128 = product(r0, q3);
        let b: i128 = product(r1, q2);
        let c: i128 = product(r2, q1);
        let d: i128 = product(r3, q0);
        let z: i64 = narrow(a - b + c + d);
        let composed = Quaternion { scalar, vector: Vector3::new([x, y, z]) };
        proof {
            Vector3::view_of_from_model(self@.compose(rhs@).v);
            composed.vector.same_view_same_vector(Vector3::from_model(self@.compose(rhs@).v));
        }
        composed
    }
}

} // verus!
