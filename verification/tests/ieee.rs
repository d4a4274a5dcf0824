use mandelbrot::ieee::{is_finite_bits, is_nan_bits, less_than, ONE, TWO, TWO_FIFTY_SIX};

fn samples() -> Vec<f64> {
    vec![
        0.0,
        -0.0,
        1.0,
        -1.0,
        2.0,
        256.0,
        0.5,
        1.0 - f64::EPSILON / 2.0,
        1.0 + f64::EPSILON,
        2.0 - f64::EPSILON,
        255.99999999999997,
        256.00000000000006,
        800.0,
        -800.0,
        f64::MIN_POSITIVE,
        f64::MIN_POSITIVE / 2.0,
        f64::from_bits(1),
        -f64::from_bits(1),
        f64::MAX,
        f64::MIN,
        f64::INFINITY,
        f64::NEG_INFINITY,
        f64::NAN,
        -f64::NAN,
        f64::from_bits(0x7FF0_0000_0000_0001),
        f64::from_bits(0xFFFF_FFFF_FFFF_FFFF),
        1e-300,
        1e300,
        -1.25066,
        0.02012,
    ]
}

#[test]
fn constants_are_the_bit_patterns_of_their_values() {
    assert_eq!(ONE, 1.0f64.to_bits());
    assert_eq!(TWO, 2.0f64.to_bits());
    assert_eq!(TWO_FIFTY_SIX, 256.0f64.to_bits());
}

#[test]
fn less_than_agrees_with_the_hardware() {
    let xs = samples();
    for a in xs.iter() {
        for b in xs.iter() {
            assert_eq!(less_than(a.to_bits(), b.to_bits()), a < b, "{:?} < {:?}", a, b);
        }
    }
}

#[test]
fn less_than_on_zeros_and_nan() {
    assert!(!less_than((-0.0f64).to_bits(), 0.0f64.to_bits()));
    assert!(!less_than(0.0f64.to_bits(), (-0.0f64).to_bits()));
    assert!(!less_than(f64::NAN.to_bits(), 1.0f64.to_bits()));
    assert!(!less_than(1.0f64.to_bits(), f64::NAN.to_bits()));
    assert!(less_than(f64::NEG_INFINITY.to_bits(), f64::INFINITY.to_bits()));
    assert!(less_than((-1.0f64).to_bits(), 0.0f64.to_bits()));
    assert!(less_than(1.0f64.to_bits(), 2.0f64.to_bits()));
    assert!(!less_than(2.0f64.to_bits(), 1.0f64.to_bits()));
    assert!(!less_than(1.0f64.to_bits(), 1.0f64.to_bits()));
}

#[test]
fn nan_and_finite_agree_with_the_hardware() {
    for x in samples() {
        assert_eq!(is_nan_bits(x.to_bits()), x.is_nan(), "{:?}", x);
        assert_eq!(is_finite_bits(x.to_bits()), x.is_finite(), "{:?}", x);
    }
}
