use mandelbrot::escape::{has_escaped, keep_iterating, ESCAPE_RADIUS_SQUARED, MAX_ITER};

#[test]
fn escape_constants() {
    assert_eq!(MAX_ITER, 1500);
    assert_eq!(ESCAPE_RADIUS_SQUARED, 256.0f64.to_bits());
    assert_eq!(f64::from_bits(ESCAPE_RADIUS_SQUARED), (1u32 << 8) as f64);
}

#[test]
fn escape_needs_more_than_the_radius() {
    assert!(!has_escaped(256.0f64.to_bits()));
    assert!(has_escaped(256.00000000000006f64.to_bits()));
    assert!(!has_escaped(255.99999999999997f64.to_bits()));
    assert!(!has_escaped(18.0f64.to_bits()));
    assert!(!has_escaped(200.0f64.to_bits()));
    assert!(has_escaped(800.0f64.to_bits()));
    assert!(!has_escaped(0.0f64.to_bits()));
}

#[test]
fn escape_on_values_that_are_not_finite() {
    assert!(has_escaped(f64::INFINITY.to_bits()));
    assert!(has_escaped(f64::NEG_INFINITY.to_bits()));
    assert!(has_escaped(f64::NAN.to_bits()));
}

#[test]
fn keep_iterating_stops_at_the_cap() {
    assert!(keep_iterating(1, 1500, 0.0f64.to_bits()));
    assert!(keep_iterating(1499, 1500, 0.0f64.to_bits()));
    assert!(!keep_iterating(1500, 1500, 0.0f64.to_bits()));
    assert!(!keep_iterating(1501, 1500, 0.0f64.to_bits()));
    assert!(!keep_iterating(0, 0, 0.0f64.to_bits()));
}

#[test]
fn keep_iterating_stops_on_escape() {
    assert!(!keep_iterating(1, 1500, 800.0f64.to_bits()));
    assert!(keep_iterating(1, 1500, 18.0f64.to_bits()));
    assert!(keep_iterating(1, 1500, 256.0f64.to_bits()));
    assert!(!keep_iterating(7, 1500, f64::NAN.to_bits()));
}
