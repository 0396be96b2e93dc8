use spatial_math::vector::Vector3;
use spatial_math::vector_ops::vector_dot;

#[test]
fn test_vector_dot() {
    let v1 = [1, -2, 3];
    let v2 = vec![4, 5, 6];
    let dot_product = vector_dot(&v1, &v2);
    assert_eq!(dot_product, 12);
}

#[test]
fn dot_of_empty_slices_is_zero() {
    assert_eq!(vector_dot(&[], &[]), 0);
    assert_eq!(vector_dot(&[], &[1, 2, 3]), 0);
    assert_eq!(vector_dot(&[1, 2, 3], &[]), 0);
}

#[test]
fn dot_goes_as_far_as_the_shorter_slice() {
    assert_eq!(vector_dot(&[1, 2, 3, 4], &[10, 100]), 210);
    assert_eq!(vector_dot(&[10, 100], &[1, 2, 3, 4]), 210);
    assert_eq!(vector_dot(&[2], &[3, 1_000_000]), 6);
}

#[test]
fn dot_of_longer_slices() {
    let a = [1, 2, 3, 4, 5, 6, 7];
    let b = [7, -6, 5, -4, 3, -2, 1];
    // 7 - 12 + 15 - 16 + 15 - 12 + 7
    assert_eq!(vector_dot(&a, &b), 4);
    assert_eq!(vector_dot(&b, &a), 4);
}

#[test]
fn dot_of_three_coordinates_is_the_dot_of_the_vectors() {
    let a = Vector3::new([3, -7, 11]);
    let b = Vector3::new([-5, 13, 2]);
    assert_eq!(vector_dot(&a.elem, &b.elem), a.dot(&b));
    assert_eq!(vector_dot(&a.elem, &b.elem), -84);
}

#[test]
fn dot_with_wide_products() {
    // the single product is i64::MIN, the least value that fits
    assert_eq!(vector_dot(&[i64::MIN], &[1]), i64::MIN);
    assert_eq!(vector_dot(&[1 << 62, 0], &[-2, 5]), i64::MIN);
    assert_eq!(vector_dot(&[i64::MAX, i64::MAX], &[1, -1]), 0);
}
