use mandelbrot::color::{Band, Color, Palette};

#[test]
fn band_boundary_at_one_is_the_middle_band() {
    assert_eq!(Band::of(1.0f64.to_bits()), Band::Mid);
    assert_eq!(Band::of((1.0f64 - f64::EPSILON / 2.0).to_bits()), Band::Low);
}

#[test]
fn band_boundary_at_two_is_the_high_band() {
    assert_eq!(Band::of(2.0f64.to_bits()), Band::High);
    assert_eq!(Band::of((2.0f64 - f64::EPSILON).to_bits()), Band::Mid);
}

#[test]
fn band_of_ordinary_values() {
    assert_eq!(Band::of(0.0f64.to_bits()), Band::Low);
    assert_eq!(Band::of(0.4268f64.to_bits()), Band::Low);
    assert_eq!(Band::of((-3.5f64).to_bits()), Band::Low);
    assert_eq!(Band::of(f64::NEG_INFINITY.to_bits()), Band::Low);
    assert_eq!(Band::of(1.5f64.to_bits()), Band::Mid);
    assert_eq!(Band::of(2.5f64.to_bits()), Band::High);
    assert_eq!(Band::of(1499.0f64.to_bits()), Band::High);
    assert_eq!(Band::of(f64::INFINITY.to_bits()), Band::High);
}

#[test]
fn band_of_nan_is_the_high_band() {
    assert_eq!(Band::of(f64::NAN.to_bits()), Band::High);
}

#[test]
fn band_floor_is_its_lower_bound() {
    assert_eq!(Band::Low.floor(), 0);
    assert_eq!(Band::Mid.floor(), 1);
    assert_eq!(Band::High.floor(), 2);
}

#[test]
fn palette_blue_green_red() {
    let p = Palette::BlueGreenRed;
    assert_eq!(p.color(Band::Low, 109), Color { r: 0, g: 0, b: 109 });
    assert_eq!(p.color(Band::Mid, 17), Color { r: 0, g: 17, b: 0 });
    assert_eq!(p.color(Band::High, 255), Color { r: 255, g: 0, b: 0 });
}

#[test]
fn palette_red_green_blue() {
    let p = Palette::RedGreenBlue;
    assert_eq!(p.color(Band::Low, 109), Color { r: 109, g: 0, b: 0 });
    assert_eq!(p.color(Band::Mid, 17), Color { r: 0, g: 17, b: 0 });
    assert_eq!(p.color(Band::High, 255), Color { r: 0, g: 0, b: 255 });
}

#[test]
fn shade_is_black_once_the_cap_is_reached() {
    let p = Palette::BlueGreenRed;
    assert_eq!(p.shade(1500, 1500, Band::Low, 200), Color { r: 0, g: 0, b: 0 });
    assert_eq!(p.shade(1501, 1500, Band::High, 200), Color { r: 0, g: 0, b: 0 });
    assert_eq!(p.shade(0, 0, Band::Mid, 200), Color { r: 0, g: 0, b: 0 });
}

#[test]
fn shade_is_the_band_color_below_the_cap() {
    let p = Palette::BlueGreenRed;
    assert_eq!(p.shade(1, 1500, Band::Low, 109), Color { r: 0, g: 0, b: 109 });
    assert_eq!(p.shade(1499, 1500, Band::High, 3), Color { r: 3, g: 0, b: 0 });
    assert_eq!(Palette::RedGreenBlue.shade(7, 8, Band::High, 3), Color { r: 0, g: 0, b: 3 });
}
