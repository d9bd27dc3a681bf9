use vec3d::vector::{check_divisor, DivisionByZero, Vec3D};

#[test]
fn test_new_reads_back() {
    let v = Vec3D::new(3.0f64.to_bits(), (-4.0f64).to_bits(), 2.0f64.to_bits());
    assert_eq!(f64::from_bits(v.x), 3.0);
    assert_eq!(f64::from_bits(v.y), -4.0);
    assert_eq!(f64::from_bits(v.z), 2.0);
}

#[test]
fn test_vectors_compare_by_components() {
    let a = Vec3D::new(1.0f64.to_bits(), 2.0f64.to_bits(), 3.0f64.to_bits());
    let b = Vec3D::new(1.0f64.to_bits(), 2.0f64.to_bits(), 3.0f64.to_bits());
    let c = Vec3D::new(1.0f64.to_bits(), 2.0f64.to_bits(), 4.0f64.to_bits());
    assert_eq!(a, b);
    assert_ne!(a, c);
}

#[test]
fn test_check_divisor_positive_zero() {
    assert_eq!(check_divisor(0.0f64.to_bits()), Err(DivisionByZero));
}

#[test]
fn test_check_divisor_negative_zero() {
    assert_eq!(check_divisor((-0.0f64).to_bits()), Err(DivisionByZero));
}

#[test]
fn test_check_divisor_ordinary_scalars() {
    assert_eq!(check_divisor(1.0f64.to_bits()), Ok(()));
    assert_eq!(check_divisor((-2.5f64).to_bits()), Ok(()));
    assert_eq!(check_divisor(1.0e300f64.to_bits()), Ok(()));
}

#[test]
fn test_check_divisor_special_scalars() {
    // NaN, the infinities and the smallest subnormal all compare unequal to
    // zero, so dividing by them is allowed.
    assert_eq!(check_divisor(f64::NAN.to_bits()), Ok(()));
    assert_eq!(check_divisor(f64::INFINITY.to_bits()), Ok(()));
    assert_eq!(check_divisor(f64::NEG_INFINITY.to_bits()), Ok(()));
    assert_eq!(check_divisor(5.0e-324f64.to_bits()), Ok(()));
}

#[test]
fn test_check_divisor_matches_scalar_equality_with_zero() {
    let samples: [f64; 9] = [
        0.0,
        -0.0,
        1.0,
        -1.0,
        0.5,
        f64::NAN,
        f64::INFINITY,
        f64::MIN_POSITIVE,
        5.0e-324,
    ];
    for k in samples {
        assert_eq!(check_divisor(k.to_bits()).is_err(), k == 0.0);
    }
}
