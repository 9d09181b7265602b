use fixed32_math::{int_div_vec, int_mul_vec, Fp, Vector};

/// Builds the library scalar carrying the same bits as the fixed-point
/// collaborator's conversion from a float.
fn fp_f32(v: f32) -> Fp {
    Fp::from_bits(fixed32::Fp::from(v).to_bits())
}

#[test]
fn multiply_fp_vector() {
    let result = Fp::from(2).mul_vec(Vector::from((10, 33)));
    assert_eq!(result.x, Fp::from(20));
    assert_eq!(result.y, Fp::from(66));
}

#[test]
fn multiply_vector_fp() {
    let result = Vector::from((10, 33)).mul_fp(Fp::from(2));
    assert_eq!(result.x, Fp::from(20));
    assert_eq!(result.y, Fp::from(66));
}

#[test]
fn test_rotate_0_degrees() {
    let vector = Vector { x: fp_f32(1.0), y: fp_f32(0.0) };
    let angle = Fp::from(0);
    let rotated = vector.rotate(angle);
    assert_eq!(rotated, Vector { x: fp_f32(1.0), y: fp_f32(0.0) });
}

#[test]
fn test_rotate_90_degrees() {
    let vector = Vector { x: fp_f32(1.0), y: fp_f32(0.0) };
    let angle = Fp::from_bits(fixed32::Fp::FRAC_PI_2.to_bits());
    let rotated = vector.rotate(angle);
    let expected_vector = Vector { x: fp_f32(0.0), y: fp_f32(1.0) };
    let len = expected_vector.sub(rotated).sqr_len();

    assert!(len < fp_f32(0.01));
}

#[test]
fn test_rotate_270_degrees() {
    let vector = Vector::new(fp_f32(1.0), fp_f32(0.0));
    let angle = fp_f32(3.0 * std::f32::consts::FRAC_PI_2);
    let rotated = vector.rotate(angle);
    let expected_vector = Vector::new(fp_f32(0.0), fp_f32(-1.0));
    let len = expected_vector.sub(rotated).sqr_len();
    assert!(len < fp_f32(0.01));
}

#[test]
fn unit_axis_vectors() {
    assert_eq!(Vector::left(), Vector::from((-1, 0)));
    assert_eq!(Vector::right(), Vector::from((1, 0)));
    assert_eq!(Vector::up(), Vector::from((0, 1)));
    assert_eq!(Vector::down(), Vector::from((0, -1)));
}

#[test]
fn add_neg_gives_zero() {
    let v = Vector::from((3, -7));
    assert_eq!(v.add(v.neg()), Vector::from((0, 0)));
    assert_eq!(Vector::default(), Vector::from((0, 0)));
}

#[test]
fn add_sub_and_assign() {
    let v = Vector::from((1, 2));
    let w = Vector::from((30, -40));
    assert_eq!(v.add(w), Vector::from((31, -38)));
    assert_eq!(w.sub(v), Vector::from((29, -42)));
    let mut acc = v;
    acc.add_assign(w);
    assert_eq!(acc, Vector::from((31, -38)));
}

#[test]
fn scale_distributivity_within_one_bit() {
    // 0.75 in Q16.16; the products of the parts round down separately.
    let k = Fp::from_bits(49152);
    let v = Vector { x: Fp::from_bits(3), y: Fp::from_bits(10) };
    let w = Vector { x: Fp::from_bits(5), y: Fp::from_bits(11) };
    let lhs = v.add(w).mul_fp(k);
    let rhs = v.mul_fp(k).add(w.mul_fp(k));
    assert!((lhs.x.bits - rhs.x.bits).abs() <= 1);
    assert!((lhs.y.bits - rhs.y.bits).abs() <= 1);
    // This sample rounds differently on the x axis: 8 * 0.75 = 6 exactly,
    // while 3 * 0.75 and 5 * 0.75 round down to 2 and 3.
    assert_eq!(lhs.x.bits, 6);
    assert_eq!(rhs.x.bits, 5);
}

#[test]
fn sqr_len_and_len() {
    let v = Vector::from((3, 4));
    assert_eq!(v.sqr_len(), Fp::from(25));
    assert_eq!(v.len(), Fp::from(5));
    assert_eq!(Vector::from((0, 0)).sqr_len(), Fp::from(0));
}

#[test]
fn normalize_zero_is_none() {
    assert_eq!(Vector::from((0, 0)).normalize(), None);
}

#[test]
fn normalize_underflow_is_none() {
    // Shorter than the smallest representable square: 100 raw units is
    // about 0.0015, whose fixed-point square underflows to zero.
    let tiny = Vector { x: Fp::from_bits(100), y: Fp::from_bits(0) };
    assert_eq!(tiny.normalize(), None);
}

#[test]
fn normalize_has_unit_length() {
    let v = Vector::from((3, 4));
    let n = v.normalize().unwrap();
    let s = n.sqr_len();
    assert!((s.bits - Fp::one().to_bits()).abs() < fp_f32(0.01).to_bits());
}

#[test]
fn dot_and_cross() {
    let v = Vector::from((1, 2));
    let w = Vector::from((3, 4));
    assert_eq!(v.dot(&w), Fp::from(11));
    assert_eq!(v.cross(&w), Fp::from(-2));
    assert_eq!(w.cross(&v), Fp::from(2));
}

#[test]
fn scale_and_componentwise_mul() {
    let v = Vector::from((2, -3));
    let f = Vector::from((5, 7));
    assert_eq!(v.scale(&f), Vector::from((10, -21)));
    assert_eq!(v.mul(f), Vector::from((10, -21)));
}

#[test]
fn componentwise_div() {
    let v = Vector::from((10, -21));
    let w = Vector::from((5, 7));
    assert_eq!(v.div(w), Vector::from((2, -3)));
}

#[test]
fn abs_components() {
    assert_eq!(Vector::from((-3, 4)).abs(), Vector::from((3, 4)));
    assert_eq!(Vector::from((3, -4)).abs(), Vector::from((3, 4)));
}

#[test]
fn vector_by_scalar_division() {
    let v = Vector::from((10, -20));
    assert_eq!(v.div_fp(Fp::from(2)), Vector::from((5, -10)));
    assert_eq!(v.div_int(2), Vector::from((5, -10)));
}

#[test]
fn vector_by_integer_product() {
    assert_eq!(Vector::from((10, 33)).mul_int(2), Vector::from((20, 66)));
}

#[test]
fn integer_by_vector_product() {
    assert_eq!(int_mul_vec(2, Vector::from((10, 33))), Vector::from((20, 66)));
}

#[test]
fn integer_by_vector_division() {
    assert_eq!(int_div_vec(10, Vector::from((2, 5))), Vector::from((5, 2)));
}
