use spatial_math::constants::{X_AXIS, Y_AXIS, Z_AXIS};
use spatial_math::vector::{LengthMismatch, Vector3};

#[test]
fn test_from_iterator() {
    Vector3::try_from(vec![1, 2, -3]).unwrap();
}

#[test]
#[should_panic(expected = "Expected 3 elements")]
fn test_from_iterator_wrong_len() {
    Vector3::try_from(vec![1, 2]).map_err(|e| e.message()).unwrap();
}

#[test]
fn test_dot() {
    let v1 = Vector3::new([1, -2, 3]);
    let v2 = Vector3::new([4, 5, 6]);
    let dot_product = v1.dot(&v2);
    assert_eq!(dot_product, 12);
}

#[test]
fn test_cross() {
    let v1 = Vector3::new([1, 2, 3]);
    let v2 = Vector3::new([4, 5, 6]);
    let cross_product = v1.cross(&v2);
    assert_eq!(cross_product.elem, [-3, 6, -3]);
}

#[test]
fn test_add_vectors() {
    let v1 = Vector3::new([1, -2, -3]);
    let v2 = Vector3::new([4, 5, 6]);
    let res = v1 + v2;
    assert_eq!(res.elem, [5, 3, 3]);
}

#[test]
fn test_mul_scalar() {
    let v = Vector3::new([10, 20, 5]);
    let res = v * 2;
    assert_eq!(res.elem, [20, 40, 10]);
}

#[test]
fn three_coordinates_are_kept_in_order() {
    let v = Vector3::try_from(vec![7, -8, 9]).unwrap();
    assert_eq!(v.elem, [7, -8, 9]);
    assert_eq!(v, Vector3::new([7, -8, 9]));
    assert_eq!(Vector3::from([7, -8, 9]), v);
}

#[test]
fn two_coordinates_are_a_length_mismatch() {
    let built = Vector3::try_from(vec![1, 2]);
    assert_eq!(built, Err(LengthMismatch { expected: 3, found: 2 }));
}

#[test]
fn any_other_number_of_coordinates_is_a_length_mismatch() {
    assert_eq!(Vector3::try_from(vec![]), Err(LengthMismatch { expected: 3, found: 0 }));
    assert_eq!(Vector3::try_from(vec![5]), Err(LengthMismatch { expected: 3, found: 1 }));
    assert_eq!(
        Vector3::try_from(vec![1, 2, 3, 4]),
        Err(LengthMismatch { expected: 3, found: 4 })
    );
    assert_eq!(
        Vector3::try_from(vec![0; 12]),
        Err(LengthMismatch { expected: 3, found: 12 })
    );
}

#[test]
fn the_message_names_both_counts() {
    let mismatch = LengthMismatch { expected: 3, found: 2 };
    assert_eq!(mismatch.message(), "Expected 3 elements, found 2");
    let mismatch = LengthMismatch { expected: 3, found: 0 };
    assert_eq!(mismatch.message(), "Expected 3 elements, found 0");
    let mismatch = LengthMismatch { expected: 3, found: 1024 };
    assert_eq!(mismatch.message(), "Expected 3 elements, found 1024");
    let mismatch = LengthMismatch { expected: 10, found: usize::MAX };
    assert_eq!(mismatch.message(), format!("Expected 10 elements, found {}", usize::MAX));
}

#[test]
fn the_message_of_a_failed_construction() {
    let mismatch = Vector3::try_from(vec![1, 2, 3, 4, 5]).unwrap_err();
    assert_eq!(mismatch.message(), "Expected 3 elements, found 5");
}

#[test]
fn dot_commutes() {
    let a = Vector3::new([3, -7, 11]);
    let b = Vector3::new([-5, 13, 2]);
    assert_eq!(a.dot(&b), -84);
    assert_eq!(b.dot(&a), -84);
}

#[test]
fn cross_anticommutes() {
    let a = Vector3::new([3, -7, 11]);
    let b = Vector3::new([-5, 13, 2]);
    let ab = a.cross(&b);
    let ba = b.cross(&a);
    assert_eq!(ab.elem, [-157, -61, 4]);
    assert_eq!(ba.elem, [157, 61, -4]);
    assert_eq!((ba * -1).elem, ab.elem);
}

#[test]
fn cross_of_parallel_vectors_is_zero() {
    let a = Vector3::new([3, -7, 11]);
    assert_eq!(a.cross(&a).elem, [0, 0, 0]);
    assert_eq!(a.cross(&(a * -4)).elem, [0, 0, 0]);
    assert_eq!((a * 9).cross(&a).elem, [0, 0, 0]);
}

#[test]
fn cross_is_orthogonal_to_its_operands() {
    let a = Vector3::new([3, -7, 11]);
    let b = Vector3::new([-5, 13, 2]);
    let c = a.cross(&b);
    assert_eq!(c.dot(&a), 0);
    assert_eq!(c.dot(&b), 0);
}

#[test]
fn cross_of_the_axes_is_right_handed() {
    let x = Vector3::new(X_AXIS);
    let y = Vector3::new(Y_AXIS);
    let z = Vector3::new(Z_AXIS);
    assert_eq!(x.cross(&y), z);
    assert_eq!(y.cross(&z), x);
    assert_eq!(z.cross(&x), y);
    assert_eq!(x.dot(&y), 0);
    assert_eq!(x.dot(&x), 1);
}

#[test]
fn dot_with_itself_is_the_sum_of_the_squares() {
    assert_eq!(Vector3::new([3, -7, 11]).dot(&Vector3::new([3, -7, 11])), 179);
    assert_eq!(Vector3::new([0, 0, -1]).dot(&Vector3::new([0, 0, -1])), 1);
    assert_eq!(Vector3::new([0, 0, 0]).dot(&Vector3::new([0, 0, 0])), 0);
}

#[test]
fn zero_vector() {
    let zero = Vector3::new([0, 0, 0]);
    let a = Vector3::new([3, -7, 11]);
    assert_eq!(zero.dot(&zero), 0);
    assert_eq!(zero.dot(&a), 0);
    assert_eq!(zero.cross(&a), zero);
    assert_eq!(a + zero, a);
    assert_eq!(a * 0, zero);
}

#[test]
fn products_at_the_limits_of_the_coordinates() {
    // each product leaves the range of an i64 and the results are back in it
    let a = Vector3::new([i64::MAX, i64::MAX, 0]);
    let b = Vector3::new([i64::MAX, -i64::MAX, 1]);
    assert_eq!(a.dot(&b), 0);
    let c = Vector3::new([i64::MIN, i64::MIN, 0]);
    assert_eq!(c.cross(&c).elem, [0, 0, 0]);
    // a * a - (a - 1) * (a + 1) = 1
    let a = i64::MAX - 1;
    let d = Vector3::new([a, a - 1, 0]);
    let e = Vector3::new([a + 1, a, 0]);
    assert_eq!(d.cross(&e).elem, [0, 0, 1]);
    let e = Vector3::new([i64::MIN, 1, -1]);
    assert_eq!((e * 1).elem, [i64::MIN, 1, -1]);
    assert_eq!((Vector3::new([i64::MAX, 0, -i64::MAX]) * -1).elem, [-i64::MAX, 0, i64::MAX]);
}

#[test]
fn a_copy_is_independent() {
    let a = Vector3::new([1, 2, 3]);
    let b = a.clone();
    let sum = a + b;
    assert_eq!(sum.elem, [2, 4, 6]);
    assert_eq!(a.elem, [1, 2, 3]);
}
