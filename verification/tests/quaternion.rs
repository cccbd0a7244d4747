use quaternion_rs::{Quaternion, Rat};

/// The tolerance the library suggests for self-consistency checks: 1e-13.
fn eps() -> Rat {
    Rat::new(1, 10_000_000_000_000)
}

#[test]
fn test_conjugate() {
    let q = Quaternion::new(1, 2, 3, 4);
    let qc = Quaternion::new(1, -2, -3, -4);
    assert!(q.conjugate().eq(&qc, &eps()).unwrap());
}

#[test]
fn test_inverse() {
    let q = Quaternion::new(1, 2, 3, 4);
    let qi = q.inverse().unwrap();
    let c = q.mul(&qi).unwrap();
    let r = Quaternion::new(1, 0, 0, 0);
    assert!(c.eq(&r, &eps()).unwrap());
}

#[test]
fn test_abs_of_product() {
    let q1 = Quaternion::new_scaled(306, 100, 100, 200, 100);
    let q2 = Quaternion::new_scaled(70, 300, -100, 200, 100);
    let p1 = q1.mul(&q2).unwrap().dot().unwrap();
    let p2 = q1.dot().unwrap().mul(&q2.dot().unwrap()).unwrap();
    assert!(p1.sub(&p2).unwrap().abs().lt(&eps()));
}

#[test]
fn conjugate_involution_is_exact() {
    let q = Quaternion::new_scaled(306, 100, 100, 200, 100);
    let back = q.conjugate().conjugate();
    assert_eq!(back.w(), q.w());
    assert_eq!(back.x(), q.x());
    assert_eq!(back.y(), q.y());
    assert_eq!(back.z(), q.z());
    assert_eq!(back.den(), q.den());
}

#[test]
fn add_concrete_scenario() {
    // a = (3.06, 1, 1, 2), b = (0.70, 3, -1, 2): a + b = (3.76, 4, 0, 4).
    let a = Quaternion::new_scaled(306, 100, 100, 200, 100);
    let b = Quaternion::new_scaled(70, 300, -100, 200, 100);
    let sum = a.add(&b).unwrap();
    let expected = Quaternion::new_scaled(376, 400, 0, 400, 100);
    assert!(sum.exact_eq(&expected));
}

#[test]
fn sub_concrete_scenario() {
    // a - b = (2.36, -2, 2, 0).
    let a = Quaternion::new_scaled(306, 100, 100, 200, 100);
    let b = Quaternion::new_scaled(70, 300, -100, 200, 100);
    let diff = a.sub(&b).unwrap();
    let expected = Quaternion::new_scaled(236, -200, 200, 0, 100);
    assert!(diff.exact_eq(&expected));
}

#[test]
fn mul_concrete_scenario() {
    // a * b = (-3.858, 13.88, 1.64, 3.52), and b * a differs.
    let a = Quaternion::new_scaled(306, 100, 100, 200, 100);
    let b = Quaternion::new_scaled(70, 300, -100, 200, 100);
    let ab = a.mul(&b).unwrap();
    let expected = Quaternion::new_scaled(-3858, 13880, 1640, 3520, 1000);
    assert!(ab.exact_eq(&expected));
    let ba = b.mul(&a).unwrap();
    assert!(!ab.exact_eq(&ba));
}

#[test]
fn magnitude_concrete_scenario() {
    // |(3.06, 1, 1, 2)| = sqrt(15.3636) ~ 3.9197.
    let a = Quaternion::new_scaled(306, 100, 100, 200, 100);
    let ns = a.dot().unwrap();
    assert_eq!(ns.num(), 153636);
    assert_eq!(ns.den(), 10000);
    let magnitude = ((ns.num() as f64) / (ns.den() as f64)).sqrt();
    assert!((magnitude - 3.9197).abs() < 1e-4);
}

#[test]
fn round_trip_inverse_concrete() {
    // a * a^-1 ~ (1, 0, 0, 0) within 1e-9; here it is exact.
    let a = Quaternion::new_scaled(306, 100, 100, 200, 100);
    let round = a.mul(&a.inverse().unwrap()).unwrap();
    let tolerance = Rat::new(1, 1_000_000_000);
    assert!(round.eq(&Quaternion::one(), &tolerance).unwrap());
    assert!(round.exact_eq(&Quaternion::one()));
}

#[test]
fn norm_squared_is_multiplicative_concrete() {
    let a = Quaternion::new(2, -3, 5, 7);
    let b = Quaternion::new_scaled(-1, 4, 2, -6, 4);
    let lhs = a.mul(&b).unwrap().dot().unwrap();
    let rhs = a.dot().unwrap().mul(&b.dot().unwrap()).unwrap();
    assert!(lhs.same_value(&rhs));
}

#[test]
fn add_commutative_and_associative_concrete() {
    let a = Quaternion::new_scaled(1, -2, 3, -4, 7);
    let b = Quaternion::new_scaled(5, 6, -7, 8, 3);
    let c = Quaternion::new(9, -1, 0, 2);
    assert!(a.add(&b).unwrap().exact_eq(&b.add(&a).unwrap()));
    let left = a.add(&b).unwrap().add(&c).unwrap();
    let right = a.add(&b.add(&c).unwrap()).unwrap();
    assert!(left.exact_eq(&right));
}

#[test]
fn sub_is_add_of_negation() {
    let a = Quaternion::new_scaled(1, -2, 3, -4, 7);
    let b = Quaternion::new_scaled(5, 6, -7, 8, 3);
    let direct = a.sub(&b).unwrap();
    let via_neg = a.add(&b.neg()).unwrap();
    assert!(direct.exact_eq(&via_neg));
}

#[test]
fn div_is_right_inverse_form() {
    // a / b is a * b^-1; the left form b^-1 * a differs in general.
    let a = Quaternion::new_scaled(306, 100, 100, 200, 100);
    let b = Quaternion::new_scaled(70, 300, -100, 200, 100);
    let quotient = a.div(&b).unwrap();
    let right_form = a.mul(&b.inverse().unwrap()).unwrap();
    assert!(quotient.exact_eq(&right_form));
    let left_form = b.inverse().unwrap().mul(&a).unwrap();
    assert!(!quotient.exact_eq(&left_form));
    // Dividing the product by b gives a back.
    let back = a.mul(&b).unwrap().div(&b).unwrap();
    assert!(back.exact_eq(&a));
}

#[test]
fn inverse_of_zero_is_rejected() {
    let zero = Quaternion::zero();
    assert!(zero.is_zero());
    assert!(zero.inverse().is_none());
    let a = Quaternion::new(1, 2, 3, 4);
    assert!(a.div(&zero).is_none());
    assert!(!a.is_zero());
}

#[test]
fn overflow_is_reported_not_wrapped() {
    let big = Quaternion::new(i64::MAX, 0, 0, 0);
    assert!(big.dot().is_none());
    assert!(big.mul(&big).is_none());
    assert!(big.inverse().is_none());
    let small = Quaternion::new(1, 1, 1, 1);
    assert!(small.dot().is_some());
}

#[test]
fn zero_and_one_identities() {
    let a = Quaternion::new_scaled(5, -3, 2, 9, 4);
    assert!(a.add(&Quaternion::zero()).unwrap().exact_eq(&a));
    assert!(a.mul(&Quaternion::one()).unwrap().exact_eq(&a));
    assert!(Quaternion::one().mul(&a).unwrap().exact_eq(&a));
}

#[test]
fn exact_eq_sees_through_denominators() {
    let a = Quaternion::new_scaled(2, 4, -6, 8, 2);
    let b = Quaternion::new(1, 2, -3, 4);
    assert!(a.exact_eq(&b));
    let c = Quaternion::new(1, 2, -3, 5);
    assert!(!a.exact_eq(&c));
}

#[test]
fn eq_is_strict_tolerance() {
    let a = Quaternion::new(1, 0, 0, 0);
    let b = Quaternion::new_scaled(11, 0, 0, 0, 10);
    // |a - b| = 0.1 in the scalar component.
    assert!(a.eq(&b, &Rat::new(2, 10)).unwrap());
    assert!(!a.eq(&b, &Rat::new(1, 10)).unwrap());
    assert!(!a.eq(&b, &Rat::new(1, 20)).unwrap());
}

#[test]
fn scale_by_rational() {
    let a = Quaternion::new(1, -2, 3, -4);
    let s = Rat::new(-3, 2);
    let scaled = a.scale(&s).unwrap();
    let expected = Quaternion::new_scaled(-3, 6, -9, 12, 2);
    assert!(scaled.exact_eq(&expected));
}

#[test]
fn rat_arithmetic_is_exact() {
    let a = Rat::new(3, -4);
    assert_eq!(a.num(), -3);
    assert_eq!(a.den(), 4);
    assert!(a.lt(&Rat::new(-1, 2)));
    assert!(!Rat::new(-1, 2).lt(&a));
    let product = a.mul(&Rat::new(-2, 3)).unwrap();
    assert!(product.same_value(&Rat::new(1, 2)));
    let difference = a.sub(&Rat::new(1, 4)).unwrap();
    assert!(difference.same_value(&Rat::new(-1, 1)));
    assert!(difference.abs().same_value(&Rat::new(1, 1)));
    assert!(Rat::new(0, 9).is_zero());
    assert!(!a.is_zero());
}
