use spatial_math::constants::{X_AXIS, Y_AXIS, Z_AXIS};
use spatial_math::quaternions::Quaternion;
use spatial_math::vector::Vector3;

fn quaternion(scalar: i64, vector: [i64; 3]) -> Quaternion {
    Quaternion { scalar, vector: Vector3::new(vector) }
}

/// The rotation by a half turn about an axis.
fn half_turn(axis: [i64; 3]) -> Quaternion {
    quaternion(0, axis)
}

/// The identity quaternion should have no effect when used to rotate vectors
#[test]
fn test_identity() {
    let identity = Quaternion::identity();

    let vec = Vector3::new([1, 2, 3]);
    let rotated_vec = identity.rotated_vec_alias(&vec);
    assert_eq!(rotated_vec.elem, vec.elem);

    let vec = Vector3::new([1, 2, 3]);
    let rotated_vec = identity.rotated_vec_alibi(&vec);
    assert_eq!(rotated_vec.elem, vec.elem);

    let identity_squared = identity.clone() * identity.clone();
    assert_eq!(identity_squared, identity);
}

/// Multiplying a quaternion by its inverse gives the identity quaternion
#[test]
fn test_inversion_gives_identity() {
    let q = half_turn(Z_AXIS);
    let q_inv = q.inverted();
    let qq_inv = q * q_inv;
    assert_eq!(qq_inv, Quaternion::identity());
}

/// Rotate a vector by a quaternion and then rotate it by the inverse quaternion, should get
/// the vector back
///
/// This version uses alias rotations
#[test]
fn test_rotate_with_inverse_is_noop_alias() {
    let mut q = half_turn(Z_AXIS);
    let original_vec = Vector3::new([1, 2, 3]);
    let rotated_vec = q.clone().rotated_vec_alias(&original_vec);
    q.invert();
    let rotated_vec = q.rotated_vec_alias(&rotated_vec);
    assert_eq!(rotated_vec.elem, original_vec.elem);
}

/// Rotate a vector by a quaternion and then rotate it by the inverse quaternion, should get
/// the vector back
///
/// This version uses alibi rotations
#[test]
fn test_rotate_with_inverse_is_noop_alibi() {
    let mut q = half_turn(Z_AXIS);
    let original_vec = Vector3::new([1, 2, 3]);
    let rotated_vec = q.clone().rotated_vec_alibi(&original_vec);
    q.invert();
    let rotated_vec = q.rotated_vec_alibi(&rotated_vec);
    assert_eq!(rotated_vec.elem, original_vec.elem);
}

/// Applying an alias rotation followed by an alibi rotation with the same quaternion gives the
/// vector back
#[test]
fn test_alias_alibi() {
    // Alias then alibi
    let q = half_turn(Y_AXIS);
    let original_vec = Vector3::new([1, -2, 3]);
    let rotated_vec = q.rotated_vec_alias(&q.rotated_vec_alibi(&original_vec));
    assert_eq!(rotated_vec.elem, original_vec.elem);

    // Alibi then alias
    let rotated_vec = q.rotated_vec_alibi(&q.rotated_vec_alias(&original_vec));
    assert_eq!(rotated_vec.elem, original_vec.elem);
}

#[test]
fn identity_is_scalar_one_and_vector_zero() {
    let identity = Quaternion::identity();
    assert_eq!(identity.scalar, 1);
    assert_eq!(identity.vector.elem, [0, 0, 0]);
    assert_eq!(Quaternion::default(), identity);
}

#[test]
fn identity_is_neutral() {
    let identity = Quaternion::identity();
    let q = quaternion(2, [1, 3, -1]);
    assert_eq!(identity * q, q);
    assert_eq!(q * identity, q);
}

#[test]
fn half_turns_move_the_other_two_coordinates() {
    let v = Vector3::new([1, -2, 3]);
    assert_eq!(half_turn(X_AXIS).rotated_vec_alias(&v).elem, [1, 2, -3]);
    assert_eq!(half_turn(Y_AXIS).rotated_vec_alias(&v).elem, [-1, -2, -3]);
    assert_eq!(half_turn(Z_AXIS).rotated_vec_alias(&v).elem, [-1, 2, 3]);
    assert_eq!(half_turn(X_AXIS).rotated_vec_alibi(&v).elem, [1, 2, -3]);
    assert_eq!(half_turn(Y_AXIS).rotated_vec_alibi(&v).elem, [-1, -2, -3]);
    assert_eq!(half_turn(Z_AXIS).rotated_vec_alibi(&v).elem, [-1, 2, 3]);
}

#[test]
fn hamilton_product_of_the_units() {
    let i = half_turn(X_AXIS);
    let j = half_turn(Y_AXIS);
    let k = half_turn(Z_AXIS);
    let minus_one = quaternion(-1, [0, 0, 0]);
    assert_eq!(i * j, k);
    assert_eq!(j * k, i);
    assert_eq!(k * i, j);
    assert_eq!(j * i, quaternion(0, [0, 0, -1]));
    assert_eq!(i * i, minus_one);
    assert_eq!(j * j, minus_one);
    assert_eq!(k * k, minus_one);
    assert_eq!(i * j * k, minus_one);
}

#[test]
fn hamilton_product_does_not_commute() {
    let q = quaternion(2, [1, 3, -1]);
    let p = quaternion(1, [0, 2, 5]);
    assert_eq!(q * p, quaternion(1, [18, 2, 11]));
    assert_eq!(p * q, quaternion(1, [-16, 12, 7]));
}

#[test]
fn inverted_negates_the_vector_part() {
    let q = quaternion(2, [1, 3, -1]);
    assert_eq!(q.inverted(), quaternion(2, [-1, -3, 1]));
    assert_eq!(q.inverted().inverted(), q);
    // q itself is untouched
    assert_eq!(q, quaternion(2, [1, 3, -1]));
}

#[test]
fn invert_is_inverted_in_place() {
    let mut q = quaternion(2, [1, 3, -1]);
    q.invert();
    assert_eq!(q, quaternion(2, [-1, -3, 1]));
    q.invert();
    assert_eq!(q, quaternion(2, [1, 3, -1]));
    let mut big = quaternion(i64::MIN, [i64::MAX, -i64::MAX, 0]);
    big.invert();
    assert_eq!(big, quaternion(i64::MIN, [-i64::MAX, i64::MAX, 0]));
}

#[test]
fn product_with_the_conjugate_is_the_squared_norm() {
    let q = quaternion(2, [1, 3, -1]);
    assert_eq!(q * q.inverted(), quaternion(15, [0, 0, 0]));
    assert_eq!(q.inverted() * q, quaternion(15, [0, 0, 0]));
}

#[test]
fn unit_quaternion_times_its_inverse_is_the_identity() {
    for q in [
        quaternion(1, [0, 0, 0]),
        quaternion(-1, [0, 0, 0]),
        quaternion(0, [1, 0, 0]),
        quaternion(0, [0, -1, 0]),
        quaternion(0, [0, 0, 1]),
    ] {
        assert_eq!(q * q.inverted(), Quaternion::identity());
        assert_eq!(q.inverted() * q, Quaternion::identity());
    }
}

#[test]
fn rotation_formulas_on_a_quaternion_that_is_no_unit() {
    let q = quaternion(2, [1, 3, -1]);
    let v = Vector3::new([1, -2, 3]);
    assert_eq!(q.rotated_vec_alias(&v).elem, [-65, 10, -27]);
    assert_eq!(q.rotated_vec_alibi(&v).elem, [-9, -22, -67]);
}

#[test]
fn alibi_is_alias_of_the_inverse() {
    let q = quaternion(2, [1, 3, -1]);
    let v = Vector3::new([1, -2, 3]);
    assert_eq!(q.rotated_vec_alibi(&v), q.inverted().rotated_vec_alias(&v));
    assert_eq!(q.rotated_vec_alias(&v), q.inverted().rotated_vec_alibi(&v));
}

#[test]
fn round_trip_misses_by_a_multiple_of_the_norm_defect() {
    // |q|² = 15, so the round trip adds 4 (1 - 15) (v × u) × u
    let q = quaternion(2, [1, 3, -1]);
    let v = Vector3::new([1, -2, 3]);
    let there = q.rotated_vec_alias(&v);
    let back = q.inverted().rotated_vec_alias(&there);
    let defect = v.cross(&q.vector).cross(&q.vector) * (4 * (1 - 15));
    assert_eq!(back.elem, [1065, 110, 1403]);
    assert_eq!(back, v + defect);
}

#[test]
fn every_unit_quaternion_undoes_itself() {
    let v = Vector3::new([5, -7, 11]);
    for q in [
        quaternion(1, [0, 0, 0]),
        quaternion(-1, [0, 0, 0]),
        quaternion(0, [1, 0, 0]),
        quaternion(0, [-1, 0, 0]),
        quaternion(0, [0, 1, 0]),
        quaternion(0, [0, -1, 0]),
        quaternion(0, [0, 0, 1]),
        quaternion(0, [0, 0, -1]),
    ] {
        let inverse = q.inverted();
        assert_eq!(inverse.rotated_vec_alias(&q.rotated_vec_alias(&v)), v);
        assert_eq!(inverse.rotated_vec_alibi(&q.rotated_vec_alibi(&v)), v);
        assert_eq!(q.rotated_vec_alias(&q.rotated_vec_alibi(&v)), v);
        assert_eq!(q.rotated_vec_alibi(&q.rotated_vec_alias(&v)), v);
    }
}

#[test]
fn alibi_undoes_alias_about_the_z_axis() {
    let q = half_turn(Z_AXIS);
    let v = Vector3::new([1, -2, 3]);
    let seen = q.rotated_vec_alias(&v);
    assert_eq!(seen.elem, [-1, 2, 3]);
    assert_eq!(q.rotated_vec_alibi(&seen).elem, [1, -2, 3]);
}

#[test]
fn norm_of_a_product_is_the_product_of_the_norms() {
    fn norm_squared(q: &Quaternion) -> i64 {
        q.scalar * q.scalar + q.vector.dot(&q.vector)
    }
    let q = quaternion(2, [1, 3, -1]);
    let p = quaternion(1, [0, 2, 5]);
    assert_eq!(norm_squared(&q), 15);
    assert_eq!(norm_squared(&p), 30);
    assert_eq!(norm_squared(&(q * p)), 450);
    assert_eq!(norm_squared(&(p * q)), 450);
}

#[test]
fn hamilton_product_is_associative() {
    let a = quaternion(2, [1, 3, -1]);
    let b = quaternion(1, [0, 2, 5]);
    let c = quaternion(-3, [4, 0, 7]);
    assert_eq!((a * b) * c, a * (b * c));
    assert_eq!((a * b) * c, quaternion(-152, [-36, -88, -34]));
}

#[test]
fn inverse_of_a_product_is_the_product_of_the_inverses_in_the_other_order() {
    let a = quaternion(2, [1, 3, -1]);
    let b = quaternion(1, [0, 2, 5]);
    assert_eq!((a * b).inverted(), b.inverted() * a.inverted());
}

#[test]
fn composed_alibi_rotations_apply_the_right_factor_first() {
    let x = half_turn(X_AXIS);
    let y = half_turn(Y_AXIS);
    let v = Vector3::new([1, -2, 3]);
    let composed = x * y;
    assert_eq!(composed.rotated_vec_alibi(&v), x.rotated_vec_alibi(&y.rotated_vec_alibi(&v)));
}

#[test]
fn products_of_units_are_units() {
    let units = [
        quaternion(1, [0, 0, 0]),
        quaternion(-1, [0, 0, 0]),
        quaternion(0, [1, 0, 0]),
        quaternion(0, [-1, 0, 0]),
        quaternion(0, [0, 1, 0]),
        quaternion(0, [0, -1, 0]),
        quaternion(0, [0, 0, 1]),
        quaternion(0, [0, 0, -1]),
    ];
    let v = Vector3::new([5, -7, 11]);
    for q in units {
        for p in units {
            let product = q * p;
            assert!(units.contains(&product));
            assert_eq!(
                product.rotated_vec_alias(&v),
                p.rotated_vec_alias(&q.rotated_vec_alias(&v))
            );
            assert_eq!(
                product.rotated_vec_alibi(&v),
                q.rotated_vec_alibi(&p.rotated_vec_alibi(&v))
            );
        }
    }
}

#[test]
fn unit_rotations_of_large_vectors() {
    let big = (1i64 << 62) - 1;
    let v = Vector3::new([big, -big, big]);
    assert_eq!(half_turn(Z_AXIS).rotated_vec_alias(&v).elem, [-big, big, big]);
    assert_eq!(half_turn(X_AXIS).rotated_vec_alibi(&v).elem, [big, big, -big]);
    assert_eq!(Quaternion::identity().rotated_vec_alias(&v), v);
    assert_eq!(quaternion(-1, [0, 0, 0]).rotated_vec_alibi(&v), v);
}

#[test]
fn sandwich_product_is_the_alias_rotation_plus_the_norm_defect() {
    // |q|² = 15: q* (0, v) q = (0, alias(q, v) + 14 v)
    let q = quaternion(2, [1, 3, -1]);
    let v = Vector3::new([1, -2, 3]);
    let sandwich = q.inverted() * quaternion(0, v.elem) * q;
    assert_eq!(sandwich, quaternion(0, [-51, -18, 15]));
    assert_eq!(sandwich.vector, q.rotated_vec_alias(&v) + v * 14);
}

#[test]
fn sandwich_by_a_product_is_the_sandwich_by_its_factors_in_turn() {
    let q = quaternion(2, [1, 3, -1]);
    let p = quaternion(1, [0, 2, 5]);
    let e = quaternion(0, [1, -2, 3]);
    let by_product = (q * p).inverted() * e * (q * p);
    let in_turn = p.inverted() * (q.inverted() * e * q) * p;
    assert_eq!(by_product, in_turn);
    assert_eq!(by_product, quaternion(0, [1188, 1170, -234]));
}

#[test]
fn composed_alias_rotations_apply_the_left_factor_first() {
    let x = half_turn(X_AXIS);
    let y = half_turn(Y_AXIS);
    let v = Vector3::new([1, -2, 3]);
    let composed = x * y;
    assert_eq!(composed.rotated_vec_alias(&v).elem, [-1, 2, 3]);
    assert_eq!(composed.rotated_vec_alias(&v), y.rotated_vec_alias(&x.rotated_vec_alias(&v)));
}
