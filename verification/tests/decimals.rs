use tesser_execution::decimal::{Decimal, MAX_MANTISSA, MAX_SCALE};

#[test]
fn equality_is_by_value() {
    assert_eq!(Decimal::new(10, 1), Decimal::new(100, 2));
    assert_eq!(Decimal::new(1, 0), Decimal::from(1));
    assert_ne!(Decimal::new(10, 1), Decimal::new(11, 1));
    assert!(!Decimal::new(10, 1).same_representation(&Decimal::new(100, 2)));
    assert!(Decimal::new(10, 1).same_representation(&Decimal::new(10, 1)));
}

#[test]
fn ordering_aligns_scales() {
    let a = Decimal::new(15, 1); // 1.5
    let b = Decimal::new(149, 2); // 1.49
    assert!(b.lt(&a));
    assert!(b.le(&a));
    assert!(a.gt(&b));
    assert!(a.ge(&b));
    assert!(a.le(&Decimal::new(150, 2)));
    assert!(a.ge(&Decimal::new(150, 2)));
    assert!(!a.lt(&Decimal::new(150, 2)));
    assert!(Decimal::from(-1).lt(&Decimal::zero()));
    assert!(Decimal::new(-15, 1).lt(&Decimal::new(-149, 2)));
}

#[test]
fn sign_tests_are_exact() {
    assert!(Decimal::zero().is_zero());
    assert!(Decimal::new(0, 5).is_zero());
    assert!(!Decimal::new(1, 28).is_zero());
    assert!(Decimal::new(1, 28).is_positive());
    assert!(Decimal::new(-1, 28).is_negative());
    assert!(!Decimal::zero().is_positive());
    assert!(!Decimal::zero().is_negative());
}

#[test]
fn abs_and_neg_keep_the_scale() {
    let d = Decimal::new(-3141, 3);
    assert_eq!(d.abs().mantissa(), 3141);
    assert_eq!(d.abs().scale(), 3);
    assert_eq!(d.neg().mantissa(), 3141);
    assert_eq!(d.neg().neg().mantissa(), -3141);
    assert_eq!(Decimal::new(7, 2).abs().mantissa(), 7);
}

#[test]
fn constructors_respect_the_representation() {
    assert!(Decimal::try_new(1, MAX_SCALE).is_some());
    assert!(Decimal::try_new(1, MAX_SCALE + 1).is_none());
    assert!(Decimal::try_from_i128_with_scale(MAX_MANTISSA, 0).is_some());
    assert!(Decimal::try_from_i128_with_scale(MAX_MANTISSA + 1, 0).is_none());
    assert!(Decimal::try_from_i128_with_scale(-MAX_MANTISSA, 28).is_some());
    assert!(Decimal::try_from_i128_with_scale(-MAX_MANTISSA - 1, 0).is_none());
    assert!(Decimal::try_from_i128_with_scale(0, 29).is_none());
    let d = Decimal::from(-42);
    assert_eq!(d.mantissa(), -42);
    assert_eq!(d.scale(), 0);
}
