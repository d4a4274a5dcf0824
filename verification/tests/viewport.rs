use mandelbrot::grid::RenderError;
use mandelbrot::viewport::Viewport;

fn make(x_min: f64, x_max: f64, y_min: f64, y_max: f64) -> Result<Viewport, RenderError> {
    Viewport::new(x_min.to_bits(), x_max.to_bits(), y_min.to_bits(), y_max.to_bits())
}

#[test]
fn viewport_keeps_its_bounds() {
    let v = make(-2.5, 1.0, -1.0, 1.0).unwrap();
    assert_eq!(f64::from_bits(v.x_min()), -2.5);
    assert_eq!(f64::from_bits(v.x_max()), 1.0);
    assert_eq!(f64::from_bits(v.y_min()), -1.0);
    assert_eq!(f64::from_bits(v.y_max()), 1.0);
}

#[test]
fn viewport_of_a_narrow_region() {
    let x_min = -1.25066;
    let y_min = 0.02012;
    assert!(make(x_min, x_min + 0.00017 / 3.0, y_min, y_min + 0.00017 / 3.0).is_ok());
}

#[test]
fn viewport_rejects_an_empty_real_axis() {
    assert_eq!(make(1.0, 1.0, -1.0, 1.0).err(), Some(RenderError::InvalidConfiguration));
    assert_eq!(make(1.0, -2.5, -1.0, 1.0).err(), Some(RenderError::InvalidConfiguration));
}

#[test]
fn viewport_rejects_an_empty_imaginary_axis() {
    assert_eq!(make(-2.5, 1.0, 1.0, 1.0).err(), Some(RenderError::InvalidConfiguration));
    assert_eq!(make(-2.5, 1.0, 1.0, -1.0).err(), Some(RenderError::InvalidConfiguration));
}

#[test]
fn viewport_rejects_the_two_zeros_as_bounds() {
    assert_eq!(make(-0.0, 0.0, -1.0, 1.0).err(), Some(RenderError::InvalidConfiguration));
}

#[test]
fn viewport_rejects_nan_bounds() {
    assert_eq!(make(f64::NAN, 1.0, -1.0, 1.0).err(), Some(RenderError::InvalidConfiguration));
    assert_eq!(make(-2.5, 1.0, -1.0, f64::NAN).err(), Some(RenderError::InvalidConfiguration));
}
