//! Colors, the palette, and the mapping from an escape measurement to a color.

use crate::ieee::{is_nan, lemma_constants, less_than, lt, value, ONE, TWO};
use vstd::prelude::*;

verus! {

/// One pixel: three 8-bit channels.
#[derive(Clone, Copy, Debug, PartialEq, Eq, Structural)]
pub struct Color {
    pub r: u8,
    pub g: u8,
    pub b: u8,
}

/// The unit band that a smoothed escape value falls into: below one, from one
/// up to but not including two, and from two upwards.
#[derive(Clone, Copy, Debug, PartialEq, Eq, Structural)]
pub enum Band {
    Low,
    Mid,
    High,
}

/// Which channel each band drives. The choice is cosmetic.
#[derive(Clone, Copy, Debug, PartialEq, Eq, Structural)]
pub enum Palette {
    /// Low band blue, middle band green, high band red.
    BlueGreenRed,
    /// Low band red, middle band green, high band blue.
    RedGreenBlue,
}

/// The color of a point that never escaped.
pub open spec fn black() -> Color {
    Color { r: 0, g: 0, b: 0 }
}

/// The color with `level` on the channel that `palette` assigns to `band`,
/// and zero on the other two.
pub open spec fn band_color(palette: Palette, band: Band, level: u8) -> Color {
    match (palette, band) {
        (Palette::BlueGreenRed, Band::Low) => Color { r: 0, g: 0, b: level },
        (Palette::BlueGreenRed, Band::High) => Color { r: level, g: 0, b: 0 },
        (Palette::RedGreenBlue, Band::Low) => Color { r: level, g: 0, b: 0 },
        (Palette::RedGreenBlue, Band::High) => Color { r: 0, g: 0, b: level },
        (_, Band::Mid) => Color { r: 0, g: level, b: 0 },
    }
}

/// The color of a point after `iterations` steps of at most `max_iter`: black
/// when the cap was reached, the band color otherwise.
pub open spec fn shade_of(
    palette: Palette,
    iterations: u32,
    max_iter: u32,
    band: Band,
    level: u8,
) -> Color {
    if iterations < max_iter {
        band_color(palette, band, level)
    } else {
        black()
    }
}

/// The band of the smoothed escape value `c`, a binary64 bit pattern. The
/// bands are half-open: exactly 1.0 is in the middle band and exactly 2.0 in
/// the high one. A NaN is below nothing and lands in the high band.
pub open spec fn band_of(c: u64) -> Band {
    if lt(c, ONE) {
        Band::Low
    } else if lt(c, TWO) {
        Band::Mid
    } else {
        Band::High
    }
}

/// The `k`-th byte of a pixel in the buffer: red, green, blue.
pub open spec fn channel(c: Color, k: int) -> u8 {
    if k == 0 {
        c.r
    } else if k == 1 {
        c.g
    } else {
        c.b
    }
}

impl Band {
    /// The band that the smoothed escape value `c` falls into.
    pub fn of(c: u64) -> (band: Band)
        ensures
            band == band_of(c),
    {
        if less_than(c, ONE) {
            Band::Low
        } else if less_than(c, TWO) {
            Band::Mid
        } else {
            Band::High
        }
    }

    /// The lower bound of the band, which the smoothed value is measured from.
    pub fn floor(self) -> (n: u8)
        ensures
            n == match self {
                Band::Low => 0u8,
                Band::Mid => 1u8,
                Band::High => 2u8,
            },
    {
        match self {
            Band::Low => 0,
            Band::Mid => 1,
            Band::High => 2,
        }
    }
}

impl Palette {
    /// The color for an escaped point in `band` with intensity `level`.
    pub fn color(self, band: Band, level: u8) -> (c: Color)
        ensures
            c == band_color(self, band, level),
    {
        match band {
            Band::Mid => Color { r: 0, g: level, b: 0 },
            Band::Low => match self {
                Palette::BlueGreenRed => Color { r: 0, g: 0, b: level },
                Palette::RedGreenBlue => Color { r: level, g: 0, b: 0 },
            },
            Band::High => match self {
                Palette::BlueGreenRed => Color { r: level, g: 0, b: 0 },
                Palette::RedGreenBlue => Color { r: 0, g: 0, b: level },
            },
        }
    }

    /// The color of a point whose evaluation stopped after `iterations` steps
    /// under the cap `max_iter`. A point that used the whole cap is presumed
    /// inside the set and is black whatever `band` and `level` are.
    pub fn shade(self, iterations: u32, max_iter: u32, band: Band, level: u8) -> (c: Color)
        ensures
            c == shade_of(self, iterations, max_iter, band, level),
    {
        if iterations < max_iter {
            self.color(band, level)
        } else {
            Color { r: 0, g: 0, b: 0 }
        }
    }
}

/// A band color lights at most the one channel of its band: every other byte
/// of the pixel is zero, and the lit one holds the level.
pub proof fn lemma_band_color_single_channel(palette: Palette, band: Band, level: u8)
    ensures
        ({
            let c = band_color(palette, band, level);
            &&& c.r + c.g + c.b == level
            &&& (c.r == level || c.g == level || c.b == level)
        }),
{
}

/// The bands are the half-open unit intervals: a value is in the low band
/// when it is below 1.0, in the middle band when it is at least 1.0 and below
/// 2.0, and in the high band when it is at least 2.0 or not a number. So
/// exactly 1.0 is in the middle band and exactly 2.0 in the high band.
pub proof fn lemma_bands_half_open(c: u64)
    ensures
        band_of(c) == Band::Low <==> !is_nan(c) && value(c) < value(ONE),
        band_of(c) == Band::Mid <==> !is_nan(c) && value(ONE) <= value(c) < value(TWO),
        band_of(c) == Band::High <==> is_nan(c) || value(TWO) <= value(c),
        band_of(ONE) == Band::Mid,
        band_of(TWO) == Band::High,
{
    lemma_constants();
    assert(!is_nan(ONE) && !is_nan(TWO));
    assert(value(ONE) > 0) by {
        vstd::arithmetic::power2::lemma_pow2_pos(1074);
    }
}

} // verus!
