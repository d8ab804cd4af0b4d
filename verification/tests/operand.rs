use calc::{Operand, MAGNITUDE_MASK, SIGN_MASK};

fn operand(x: f64) -> Operand {
    Operand::from_bits(x.to_bits())
}

fn samples() -> Vec<f64> {
    vec![
        0.0,
        -0.0,
        1.0,
        -1.0,
        2.0,
        0.5,
        -3.25,
        10.0,
        1e-300,
        -1e300,
        f64::EPSILON,
        f64::MIN_POSITIVE,
        -f64::MIN_POSITIVE,
        f64::from_bits(1),
        f64::from_bits(0x8000_0000_0000_0001),
        f64::from_bits(0x000f_ffff_ffff_ffff),
        f64::MAX,
        f64::MIN,
        f64::INFINITY,
        f64::NEG_INFINITY,
        f64::NAN,
        -f64::NAN,
    ]
}

#[test]
fn positive_zero_is_zero() {
    assert!(operand(0.0).is_zero());
    assert!(Operand::from_bits(0).is_zero());
}

#[test]
fn negative_zero_is_zero() {
    assert!(operand(-0.0).is_zero());
    assert!(Operand::from_bits(0x8000_0000_0000_0000).is_zero());
}

#[test]
fn ordinary_values_are_not_zero() {
    assert!(!operand(1.0).is_zero());
    assert!(!operand(-1.0).is_zero());
    assert!(!operand(2.0).is_zero());
    assert!(!operand(1e-300).is_zero());
    assert!(!operand(f64::MAX).is_zero());
    assert!(!operand(f64::MIN).is_zero());
}

#[test]
fn subnormals_are_not_zero() {
    assert!(!Operand::from_bits(1).is_zero());
    assert!(!Operand::from_bits(0x8000_0000_0000_0001).is_zero());
    assert!(!Operand::from_bits(0x000f_ffff_ffff_ffff).is_zero());
    assert!(!operand(f64::MIN_POSITIVE).is_zero());
    assert!(!operand(f64::MIN_POSITIVE / 2.0).is_zero());
}

#[test]
fn infinities_and_nan_are_not_zero() {
    assert!(!operand(f64::INFINITY).is_zero());
    assert!(!operand(f64::NEG_INFINITY).is_zero());
    assert!(!operand(f64::NAN).is_zero());
    assert!(!Operand::from_bits(0x7ff0_0000_0000_0000).is_zero());
    assert!(!Operand::from_bits(0x7ff8_0000_0000_0000).is_zero());
    assert!(!Operand::from_bits(0xffff_ffff_ffff_ffff).is_zero());
}

#[test]
fn a_lone_exponent_bit_is_not_zero() {
    assert!(!Operand::from_bits(0x0010_0000_0000_0000).is_zero());
    assert!(!Operand::from_bits(0x4000_0000_0000_0000).is_zero());
}

#[test]
fn is_zero_agrees_with_float_comparison() {
    for x in samples() {
        assert_eq!(operand(x).is_zero(), x == 0.0, "{x:?}");
    }
}

#[test]
fn is_zero_agrees_with_float_comparison_on_every_single_bit() {
    for i in 0..64 {
        let bits: u64 = 1u64 << i;
        assert_eq!(Operand::from_bits(bits).is_zero(), f64::from_bits(bits) == 0.0, "{bits:#x}");
    }
}

#[test]
fn bits_round_trip() {
    for x in samples() {
        assert_eq!(operand(x).to_bits(), x.to_bits());
    }
    assert_eq!(Operand::from_bits(0x3ff0_0000_0000_0000).to_bits(), 0x3ff0_0000_0000_0000);
    assert_eq!(Operand::from_bits(u64::MAX).to_bits(), u64::MAX);
    assert_eq!(f64::from_bits(operand(2.5).to_bits()), 2.5);
}

#[test]
fn zeros_are_the_two_encodings_without_magnitude() {
    assert_eq!(SIGN_MASK, 0x8000_0000_0000_0000);
    assert_eq!(MAGNITUDE_MASK, 0x7fff_ffff_ffff_ffff);
    assert_eq!((0.0f64).to_bits(), 0);
    assert_eq!((-0.0f64).to_bits(), SIGN_MASK);
    for x in samples() {
        let bits: u64 = x.to_bits();
        assert_eq!(operand(x).is_zero(), bits == 0 || bits == SIGN_MASK);
        assert_eq!(operand(x).is_zero(), bits & MAGNITUDE_MASK == 0);
    }
}
