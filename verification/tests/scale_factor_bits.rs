use viewport::{InvalidScaleFactor, ScaleFactor};

fn accepted(value: f64) -> bool {
    ScaleFactor::from_bits(value.to_bits()).is_ok()
}

#[test]
fn positive_numbers_are_accepted() {
    assert!(accepted(1.0));
    assert!(accepted(2.0));
    assert!(accepted(1.5));
    assert!(accepted(0.25));
    assert!(accepted(3.0e200));
    assert!(accepted(f64::MAX));
    assert!(accepted(f64::MIN_POSITIVE));
}

#[test]
fn subnormal_numbers_are_accepted() {
    assert!(accepted(f64::from_bits(1)));
    assert!(accepted(f64::MIN_POSITIVE / 2.0));
    assert!(ScaleFactor::from_bits(0x000f_ffff_ffff_ffff).is_ok());
}

#[test]
fn positive_infinity_is_accepted() {
    assert!(accepted(f64::INFINITY));
    assert!(ScaleFactor::from_bits(0x7ff0_0000_0000_0000).is_ok());
}

#[test]
fn zero_is_rejected() {
    assert_eq!(ScaleFactor::from_bits(0), Err(InvalidScaleFactor { bits: 0 }));
    assert!(!accepted(0.0));
}

#[test]
fn negative_zero_is_rejected() {
    assert_eq!(
        ScaleFactor::from_bits(0x8000_0000_0000_0000),
        Err(InvalidScaleFactor { bits: 0x8000_0000_0000_0000 })
    );
    assert!(!accepted(-0.0));
}

#[test]
fn negative_numbers_are_rejected() {
    assert!(!accepted(-1.0));
    assert!(!accepted(-2.5));
    assert!(!accepted(-f64::MIN_POSITIVE));
    assert!(!accepted(f64::MIN));
    assert!(!accepted(f64::NEG_INFINITY));
    assert!(ScaleFactor::from_bits(u64::MAX).is_err());
}

#[test]
fn not_a_number_is_rejected() {
    assert!(!accepted(f64::NAN));
    assert!(ScaleFactor::from_bits(0x7ff0_0000_0000_0001).is_err());
    assert!(ScaleFactor::from_bits(0x7ff8_0000_0000_0000).is_err());
    assert!(ScaleFactor::from_bits(0x7fff_ffff_ffff_ffff).is_err());
    assert!(ScaleFactor::from_bits(0xfff8_0000_0000_0000).is_err());
}

#[test]
fn rejection_hands_the_pattern_back() {
    let bits: u64 = (-3.0f64).to_bits();
    match ScaleFactor::from_bits(bits) {
        Ok(_) => panic!("a negative number was accepted"),
        Err(error) => assert_eq!(error.bits, bits),
    }
}

#[test]
fn acceptance_agrees_with_comparison_to_zero() {
    let samples: Vec<f64> = vec![
        0.0,
        -0.0,
        1.0,
        -1.0,
        2.0,
        0.5,
        1.0e-320,
        -1.0e-320,
        1.0e308,
        -1.0e308,
        f64::INFINITY,
        f64::NEG_INFINITY,
        f64::NAN,
        f64::EPSILON,
        f64::MAX,
        f64::MIN,
    ];
    for value in samples {
        assert_eq!(accepted(value), value > 0.0);
    }
}

#[test]
fn bits_survive_the_round_trip() {
    let patterns: Vec<u64> = vec![
        1,
        0x3ff0_0000_0000_0000,
        0x4000_0000_0000_0000,
        0x4008_0000_0000_0000,
        0x7fef_ffff_ffff_ffff,
        0x7ff0_0000_0000_0000,
    ];
    for bits in patterns {
        assert_eq!(ScaleFactor::from_bits(bits).unwrap().to_bits(), bits);
    }
}

#[test]
fn equal_patterns_give_equal_scale_factors() {
    let a = ScaleFactor::from_bits(1.25f64.to_bits()).unwrap();
    let b = ScaleFactor::from_bits(1.25f64.to_bits()).unwrap();
    let c = ScaleFactor::from_bits(1.5f64.to_bits()).unwrap();
    assert_eq!(a, b);
    assert_ne!(a, c);
}
