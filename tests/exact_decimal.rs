use price_math::decimal::ExactDecimal;

#[test]
fn new_drops_trailing_zeros() {
    let d = ExactDecimal::new(46000, 2);
    assert_eq!(d.mantissa(), 460);
    assert_eq!(d.scale(), 0);
    assert_eq!(ExactDecimal::new(-1500, 3), ExactDecimal::new(-15, 1));
    assert_eq!(ExactDecimal::new(0, 28), ExactDecimal::new(0, 0));
}

#[test]
fn new_keeps_significant_digits() {
    let d = ExactDecimal::new(105, 2);
    assert_eq!(d.mantissa(), 105);
    assert_eq!(d.scale(), 2);
    assert_ne!(ExactDecimal::new(15, 1), ExactDecimal::new(15, 2));
}

#[test]
fn sign_and_zero() {
    assert!(ExactDecimal::new(0, 4).is_zero());
    assert!(!ExactDecimal::new(1, 28).is_zero());
    assert!(ExactDecimal::new(-1, 28).is_negative());
    assert!(!ExactDecimal::new(0, 0).is_negative());
    assert_eq!(ExactDecimal::one(), ExactDecimal::new(10, 1));
}

#[test]
fn checked_div_divides() {
    let q = ExactDecimal::new(1, 0).checked_div(ExactDecimal::new(4, 0));
    assert_eq!(q, Some(ExactDecimal::new(25, 2)));
    assert_eq!(ExactDecimal::new(1, 0).checked_div(ExactDecimal::new(0, 0)), None);
}

#[test]
fn checked_mul_multiplies() {
    let p = ExactDecimal::new(15, 1).checked_mul(ExactDecimal::new(4, 0));
    assert_eq!(p, Some(ExactDecimal::new(6, 0)));
    let max = ExactDecimal::new(79_228_162_514_264_337_593_543_950_335, 0);
    assert_eq!(max.checked_mul(ExactDecimal::new(2, 0)), None);
}

#[test]
fn checked_add_adds() {
    let s = ExactDecimal::one().checked_add(ExactDecimal::new(15, 2));
    assert_eq!(s, Some(ExactDecimal::new(115, 2)));
    let max = ExactDecimal::new(79_228_162_514_264_337_593_543_950_335, 0);
    assert_eq!(max.checked_add(ExactDecimal::one()), None);
}
