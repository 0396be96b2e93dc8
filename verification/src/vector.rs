//! Three-component lattice vectors.

use vstd::prelude::*;
use vstd::string::*;

use crate::decimal::{decimal, decimal_string};
use crate::exact::{narrow, product, representable};

verus! {

/// A point of the three-dimensional integer lattice: the mathematical value of
/// a [`Vector3`], with unbounded coordinates.
pub ghost struct Vec3 {
    pub x: int,
    pub y: int,
    pub z: int,
}

impl Vec3 {
    /// The origin.
    pub open spec fn zero() -> Vec3 {
        Vec3 { x: 0, y: 0, z: 0 }
    }

    /// Componentwise sum.
    pub open spec fn plus(self, other: Vec3) -> Vec3 {
        Vec3 { x: self.x + other.x, y: self.y + other.y, z: self.z + other.z }
    }

    /// Every coordinate multiplied by `k`.
    pub open spec fn scale(self, k: int) -> Vec3 {
        Vec3 { x: self.x * k, y: self.y * k, z: self.z * k }
    }

    /// The opposite vector.
    pub open spec fn negate(self) -> Vec3 {
        Vec3 { x: -self.x, y: -self.y, z: -self.z }
    }

    /// Sum of the componentwise products.
    pub open spec fn dot(self, other: Vec3) -> int {
        self.x * other.x + self.y * other.y + self.z * other.z
    }

    /// Right-handed cross product.
    pub open spec fn cross(self, other: Vec3) -> Vec3 {
        Vec3 {
            x: self.y * other.z - self.z * other.y,
            y: self.z * other.x - self.x * other.z,
            z: self.x * other.y - self.y * other.x,
        }
    }

    /// Whether every coordinate can be held in an `i64`.
    pub open spec fn representable(self) -> bool {
        representable(self.x) && representable(self.y) && representable(self.z)
    }
}

/// A vector with three `i64` coordinates, `elem[0]`, `elem[1]` and `elem[2]`
/// being x, y and z.
#[derive(Clone, Copy, Debug, PartialEq, Eq)]
pub struct Vector3 {
    pub elem: [i64; 3],
}

impl View for Vector3 {
    type V = Vec3;

    open spec fn view(&self) -> Vec3 {
        Vec3 { x: self.elem[0] as int, y: self.elem[1] as int, z: self.elem[2] as int }
    }
}

impl Vector3 {
    /// The vector that holds the coordinates of `m`, for a representable `m`.
    pub open spec fn from_model(m: Vec3) -> Vector3
        recommends
            m.representable(),
    {
        Vector3 { elem: [m.x as i64, m.y as i64, m.z as i64] }
    }

    /// The vector that holds the coordinates of a representable `m` has `m`
    /// as its model.
    pub proof fn view_of_from_model(m: Vec3)
        requires
            m.representable(),
        ensures
            Vector3::from_model(m)@ == m,
    {
    }

    /// Vectors with the same model are the same vector.
    pub proof fn same_view_same_vector(self, other: Vector3)
        requires
            self@ == other@,
        ensures
            self == other,
    {
        assert(self.elem =~= other.elem);
    }

    /// The vector of the three given coordinates.
    pub fn new(elem: [i64; 3]) -> (v: Self)
        ensures
            v.elem == elem,
    {
        Self { elem }
    }

    /// The dot product, where it fits in an `i64`.
    pub fn dot(&self, other: &Self) -> (d: i64)
        requires
            representable(self@.dot(other@)),
        ensures
            d == self@.dot(other@),
    {
        let p0: i128 = product(self.elem[0], other.elem[0]);
        let p1: i128 = product(self.elem[1], other.elem[1]);
        let p2: i128 = product(self.elem[2], other.elem[2]);
        narrow(p0 + p1 + p2)
    }

    /// The cross product, where each of its coordinates fits in an `i64`.
    pub fn cross(&self, other: &Self) -> (c: Self)
        requires
            self@.cross(other@).representable(),
        ensures
            c@ == self@.cross(other@),
    {
        let x: i64 = narrow(
            product(self.elem[1], other.elem[2]) - product(self.elem[2], other.elem[1]),
        );
        let y: i64 = narrow(
            product(self.elem[2], other.elem[0]) - product(self.elem[0], other.elem[2]),
        );
        let z: i64 = narrow(
            product(self.elem[0], other.elem[1]) - product(self.elem[1], other.elem[0]),
        );
        Self { elem: [x, y, z] }
    }
}

impl vstd::std_specs::ops::AddSpecImpl for Vector3 {
    open spec fn obeys_add_spec() -> bool {
        true
    }

    open spec fn add_req(self, rhs: Vector3) -> bool {
        self@.plus(rhs@).representable()
    }

    open spec fn add_spec(self, rhs: Vector3) -> Vector3 {
        Vector3::from_model(self@.plus(rhs@))
    }
}

impl core::ops::Add for Vector3 {
    type Output = Vector3;

    /// The componentwise sum, where each of its coordinates fits in an `i64`.
    fn add(self, rhs: Vector3) -> (sum: Vector3)
        ensures
            sum@ == self@.plus(rhs@),
    {
        let sum = Vector3 {
            elem: [
                self.elem[0] + rhs.elem[0],
                self.elem[1] + rhs.elem[1],
                self.elem[2] + rhs.elem[2],
            ],
        };
        proof {
            Vector3::view_of_from_model(self@.plus(rhs@));
            sum.same_view_same_vector(Vector3::from_model(self@.plus(rhs@)));
        }
        sum
    }
}

impl vstd::std_specs::ops::MulSpecImpl<i64> for Vector3 {
    open spec fn obeys_mul_spec() -> bool {
        true
    }

    open spec fn mul_req(self, rhs: i64) -> bool {
        self@.scale(rhs as int).representable()
    }

    open spec fn mul_spec(self, rhs: i64) -> Vector3 {
        Vector3::from_model(self@.scale(rhs as int))
    }
}

impl core::ops::Mul<i64> for Vector3 {
    type Output = Vector3;

    /// Every coordinate multiplied by `rhs`, where each product fits in an
    /// `i64`.
    fn mul(self, rhs: i64) -> (scaled: Vector3)
        ensures
            scaled@ == self@.scale(rhs as int),
    {
        let scaled = Vector3 {
            elem: [
                narrow(product(self.elem[0], rhs)),
                narrow(product(self.elem[1], rhs)),
                narrow(product(self.elem[2], rhs)),
            ],
        };
        proof {
            Vector3::view_of_from_model(self@.scale(rhs as int));
            scaled.same_view_same_vector(Vector3::from_model(self@.scale(rhs as int)));
        }
        scaled
    }
}

impl vstd::std_specs::convert::FromSpecImpl<[i64; 3]> for Vector3 {
    open spec fn obeys_from_spec() -> bool {
        true
    }

    open spec fn from_spec(value: [i64; 3]) -> Vector3 {
        Vector3 { elem: value }
    }
}

impl From<[i64; 3]> for Vector3 {
    /// The vector of the three given coordinates.
    fn from(value: [i64; 3]) -> (v: Vector3)
        ensures
            v.elem == value,
    {
        Vector3::new(value)
    }
}

/// The failure of building a vector from a sequence that does not hold exactly
/// three coordinates.
#[derive(Clone, Copy, Debug, PartialEq, Eq)]
pub struct LengthMismatch {
    /// The number of coordinates a vector takes.
    pub expected: usize,
    /// The number of coordinates that were given.
    pub found: usize,
}

impl LengthMismatch {
    /// The text of the report: the number of coordinates expected and the
    /// number found, in decimal notation.
    pub open spec fn message_text(self) -> Seq<char> {
        "Expected "@ + decimal(self.expected as nat) + " elements, found "@ + decimal(
            self.found as nat,
        )
    }

    /// The report as a text, such as `Expected 3 elements, found 2`.
    pub fn message(&self) -> (text: String)
        ensures
            text@ == self.message_text(),
    {
        let mut text = String::from_str("Expected ");
        text.append(decimal_string(self.expected).as_str());
        text.append(" elements, found ");
        text.append(decimal_string(self.found).as_str());
        text
    }
}

/// What building a vector from the coordinates `s` gives: the vector of the
/// three coordinates in their order, or the mismatch between three and the
/// number given.
pub open spec fn checked_vector(s: Seq<i64>) -> Result<Vector3, LengthMismatch> {
    if s.len() == 3 {
        Ok(Vector3 { elem: [s[0], s[1], s[2]] })
    } else {
        Err(LengthMismatch { expected: 3, found: s.len() as usize })
    }
}

impl vstd::std_specs::convert::TryFromSpecImpl<Vec<i64>> for Vector3 {
    open spec fn obeys_try_from_spec() -> bool {
        true
    }

    open spec fn try_from_spec(value: Vec<i64>) -> Result<Vector3, LengthMismatch> {
        checked_vector(value@)
    }
}

impl TryFrom<Vec<i64>> for Vector3 {
    type Error = LengthMismatch;

    /// The vector of exactly three given coordinates; any other number of
    /// them is reported, never padded or cut.
    fn try_from(value: Vec<i64>) -> (built: Result<Vector3, LengthMismatch>)
        ensures
            built == checked_vector(value@),
            built is Ok <==> value@.len() == 3,
            built is Ok ==> built->Ok_0@ == (Vec3 {
                x: value@[0] as int,
                y: value@[1] as int,
                z: value@[2] as int,
            }),
            built is Err ==> built->Err_0 == (LengthMismatch {
                expected: 3,
                found: value@.len() as usize,
            }),
    {
        if value.len() == 3 {
            let v = Vector3 { elem: [value[0], value[1], value[2]] };
            assert(v.elem =~= checked_vector(value@)->Ok_0.elem);
            Ok(v)
        } else {
            Err(LengthMismatch { expected: 3, found: value.len() })
        }
    }
}

} // verus!
