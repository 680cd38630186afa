use calculator_engine::number::{Number, EXPONENT_TOP, FRACTION_SPAN, HUNDRED_BITS, SIGN_BIT};

fn number(x: f64) -> Number {
    Number { bits: x.to_bits() }
}

fn samples() -> Vec<f64> {
    vec![
        0.0,
        -0.0,
        1.0,
        -1.0,
        0.1,
        -3.0,
        42.0,
        100.0,
        0.005,
        1e308,
        -1e308,
        5e-324,
        -5e-324,
        f64::MIN_POSITIVE,
        f64::MAX,
        f64::MIN,
        f64::EPSILON,
        f64::INFINITY,
        f64::NEG_INFINITY,
        f64::NAN,
        -f64::NAN,
        f64::from_bits(0x7ff0_0000_0000_0001),
        f64::from_bits(0xffff_ffff_ffff_ffff),
    ]
}

#[test]
fn hundred_is_one_hundred() {
    assert_eq!(Number::hundred(), number(100.0));
    assert_eq!(Number::hundred().bits, HUNDRED_BITS);
    assert_eq!(f64::from_bits(HUNDRED_BITS), 100.0);
}

#[test]
fn constants_match_the_format() {
    assert_eq!(SIGN_BIT, (-0.0f64).to_bits());
    assert_eq!(FRACTION_SPAN, 1u64 << 52);
    assert_eq!(EXPONENT_TOP, f64::INFINITY.to_bits() >> 52);
}

#[test]
fn is_nan_agrees_with_floats() {
    for x in samples() {
        assert_eq!(number(x).is_nan(), x.is_nan(), "{:?}", x);
    }
}

#[test]
fn is_nan_on_named_values() {
    assert!(number(f64::NAN).is_nan());
    assert!(!number(f64::INFINITY).is_nan());
    assert!(!number(f64::NEG_INFINITY).is_nan());
    assert!(!number(0.0).is_nan());
    assert!(Number { bits: 0x7ff0_0000_0000_0001 }.is_nan());
    assert!(!Number { bits: 0x7ff0_0000_0000_0000 }.is_nan());
    assert!(!Number { bits: 0x7fef_ffff_ffff_ffff }.is_nan());
    assert!(Number { bits: 0xfff8_0000_0000_0000 }.is_nan());
}

#[test]
fn is_zero_agrees_with_floats() {
    for x in samples() {
        assert_eq!(number(x).is_zero(), x == 0.0, "{:?}", x);
    }
}

#[test]
fn is_zero_on_both_zeros_only() {
    assert!(number(0.0).is_zero());
    assert!(number(-0.0).is_zero());
    assert!(!number(5e-324).is_zero());
    assert!(!number(-5e-324).is_zero());
    assert!(!number(f64::NAN).is_zero());
    assert!(!Number { bits: 1 }.is_zero());
}

#[test]
fn negated_agrees_with_floats() {
    for x in samples() {
        assert_eq!(number(x).negated().bits, (-x).to_bits(), "{:?}", x);
    }
}

#[test]
fn negated_on_named_values() {
    assert_eq!(number(5.0).negated(), number(-5.0));
    assert_eq!(number(-0.1).negated(), number(0.1));
    assert_eq!(number(0.0).negated(), number(-0.0));
    assert_eq!(number(-0.0).negated(), number(0.0));
    assert_eq!(number(f64::INFINITY).negated(), number(f64::NEG_INFINITY));
    assert_ne!(number(3.0).negated(), number(3.0));
}

#[test]
fn negated_twice_is_the_number() {
    for x in samples() {
        assert_eq!(number(x).negated().negated(), number(x));
    }
}

#[test]
fn equality_is_that_of_patterns() {
    assert_eq!(number(f64::NAN), number(f64::NAN));
    assert_ne!(number(0.0), number(-0.0));
}
