//! IEEE 754 binary64 values, carried by their bit patterns.
//!
//! The library never computes with such a value; it only orders them. A bit
//! pattern holds a sign bit, eleven exponent bits and fifty-two fraction bits.
//! Its magnitude is stated here as an integer in units of 2^-1074, the
//! smallest positive binary64 value, so that every finite value is a whole
//! number and ordering needs no rounding.

use vstd::arithmetic::power2::{lemma_pow2_pos, lemma_pow2_strictly_increases, lemma_pow2_unfold, pow2};
use vstd::prelude::*;

verus! {

/// The bit pattern of 1.0.
pub const ONE: u64 = 0x3FF0_0000_0000_0000;

/// The bit pattern of 2.0.
pub const TWO: u64 = 0x4000_0000_0000_0000;

/// The bit pattern of 256.0.
pub const TWO_FIFTY_SIX: u64 = 0x4070_0000_0000_0000;

/// The pattern without its sign bit.
pub open spec fn abs_bits(b: u64) -> int {
    b as int % 0x8000_0000_0000_0000
}

/// The sign bit: set for negative values and for negative zero.
pub open spec fn sign_of(b: u64) -> bool {
    b >= 0x8000_0000_0000_0000
}

/// The biased exponent, from 0 to 2047.
pub open spec fn exponent_of(b: u64) -> int {
    abs_bits(b) / 0x10_0000_0000_0000
}

/// The fraction field, below 2^52.
pub open spec fn fraction_of(b: u64) -> int {
    abs_bits(b) % 0x10_0000_0000_0000
}

/// Not a number: the exponent is all ones and the fraction is not zero.
pub open spec fn is_nan(b: u64) -> bool {
    exponent_of(b) == 0x7ff && fraction_of(b) != 0
}

/// Neither an infinity nor a NaN.
pub open spec fn is_finite(b: u64) -> bool {
    exponent_of(b) != 0x7ff
}

/// The magnitude of an exponent and fraction in units of 2^-1074: the
/// fraction itself for a subnormal, and the fraction with its implicit
/// leading bit, shifted by the exponent, for a normal value. An infinity gets
/// the magnitude that its fields would have as a normal value, which is above
/// that of every finite value.
pub open spec fn magnitude_of(exponent: int, fraction: int) -> int {
    if exponent <= 0 {
        fraction
    } else {
        (0x10_0000_0000_0000 + fraction) * pow2((exponent - 1) as nat)
    }
}

/// The magnitude of the pattern in units of 2^-1074.
pub open spec fn magnitude(b: u64) -> int {
    magnitude_of(exponent_of(b), fraction_of(b))
}

/// The value of a pattern that is not a NaN, in units of 2^-1074. Both zeros
/// have the value zero.
pub open spec fn value(b: u64) -> int {
    if sign_of(b) {
        -magnitude(b)
    } else {
        magnitude(b)
    }
}

/// The IEEE 754 relation `a < b`: false when either side is a NaN.
pub open spec fn lt(a: u64, b: u64) -> bool {
    !is_nan(a) && !is_nan(b) && value(a) < value(b)
}

/// The least magnitude with the given exponent.
spec fn floor_of(exponent: int) -> int {
    magnitude_of(exponent, 0)
}

/// Every magnitude with exponent `e` lies between the least of `e` and the
/// least of `e + 1`.
proof fn lemma_magnitude_bounds(e: int, m: int)
    requires
        0 <= e,
        0 <= m < 0x10_0000_0000_0000,
    ensures
        floor_of(e) <= magnitude_of(e, m) < floor_of(e + 1),
{
    if e == 0 {
        assert(pow2(0) == 1) by {
            vstd::arithmetic::power2::lemma2_to64();
        }
    } else {
        let p = pow2((e - 1) as nat) as int;
        lemma_pow2_pos((e - 1) as nat);
        lemma_pow2_unfold(e as nat);
        assert(pow2(e as nat) == 2 * p);
        assert(0x10_0000_0000_0000 * p <= (0x10_0000_0000_0000 + m) * p < 0x10_0000_0000_0000 * (2
            * p)) by (nonlinear_arith)
            requires
                0 < p,
                0 <= m < 0x10_0000_0000_0000,
        ;
    }
}

/// The least magnitude of an exponent grows with the exponent.
proof fn lemma_floor_monotone(e1: int, e2: int)
    requires
        0 <= e1 <= e2,
    ensures
        floor_of(e1) <= floor_of(e2),
{
    if e1 == 0 {
        if e2 > 0 {
            lemma_pow2_pos((e2 - 1) as nat);
            assert(0 <= 0x10_0000_0000_0000 * pow2((e2 - 1) as nat)) by (nonlinear_arith);
        }
    } else if e1 < e2 {
        lemma_pow2_strictly_increases((e1 - 1) as nat, (e2 - 1) as nat);
        let low = pow2((e1 - 1) as nat) as int;
        let high = pow2((e2 - 1) as nat) as int;
        assert(0x10_0000_0000_0000 * low <= 0x10_0000_0000_0000 * high) by (nonlinear_arith)
            requires
                low < high,
        ;
    }
}

/// Magnitudes are ordered as exponent and fraction are, exponent first.
proof fn lemma_magnitude_increases(e1: int, m1: int, e2: int, m2: int)
    requires
        0 <= e1,
        0 <= e2,
        0 <= m1 < 0x10_0000_0000_0000,
        0 <= m2 < 0x10_0000_0000_0000,
        e1 < e2 || (e1 == e2 && m1 < m2),
    ensures
        magnitude_of(e1, m1) < magnitude_of(e2, m2),
{
    if e1 < e2 {
        lemma_magnitude_bounds(e1, m1);
        lemma_magnitude_bounds(e2, m2);
        lemma_floor_monotone(e1 + 1, e2);
    } else if e1 > 0 {
        let p = pow2((e1 - 1) as nat) as int;
        lemma_pow2_pos((e1 - 1) as nat);
        assert((0x10_0000_0000_0000 + m1) * p < (0x10_0000_0000_0000 + m2) * p)
            by (nonlinear_arith)
            requires
                0 < p,
                m1 < m2,
        ;
    }
}

/// Without their sign bits, two patterns are ordered as their magnitudes are,
/// and only the zero pattern has magnitude zero.
pub proof fn lemma_magnitude_order(a: u64, b: u64)
    ensures
        0 <= magnitude(a),
        abs_bits(a) < abs_bits(b) <==> magnitude(a) < magnitude(b),
        abs_bits(a) == abs_bits(b) <==> magnitude(a) == magnitude(b),
{
    let (ea, ma) = (exponent_of(a), fraction_of(a));
    let (eb, mb) = (exponent_of(b), fraction_of(b));
    lemma_magnitude_bounds(ea, ma);
    lemma_floor_monotone(0, ea);
    if abs_bits(a) < abs_bits(b) {
        lemma_magnitude_increases(ea, ma, eb, mb);
    } else if abs_bits(b) < abs_bits(a) {
        lemma_magnitude_increases(eb, mb, ea, ma);
    }
}

/// The constants are what their names say: in units of 2^-1074 the pattern
/// `ONE` is 2^1074, `TWO` is twice that and `TWO_FIFTY_SIX` is 256 times that.
pub proof fn lemma_constants()
    ensures
        value(ONE) == pow2(1074),
        value(TWO) == 2 * value(ONE),
        value(TWO_FIFTY_SIX) == 256 * value(ONE),
        is_finite(ONE) && is_finite(TWO) && is_finite(TWO_FIFTY_SIX),
{
    let p = pow2(1022) as int;
    assert(exponent_of(ONE) == 1023 && fraction_of(ONE) == 0);
    assert(exponent_of(TWO) == 1024 && fraction_of(TWO) == 0);
    assert(exponent_of(TWO_FIFTY_SIX) == 1031 && fraction_of(TWO_FIFTY_SIX) == 0);
    lemma_pow2_unfold(1023);
    vstd::arithmetic::power2::lemma_pow2_adds(1022, 8);
    vstd::arithmetic::power2::lemma_pow2_adds(1022, 52);
    vstd::arithmetic::power2::lemma2_to64();
    vstd::arithmetic::power2::lemma2_to64_rest();
    assert(pow2(52) == 0x10_0000_0000_0000);
    assert(pow2(1074) == p * 0x10_0000_0000_0000);
    assert(pow2(1030) == p * 256);
    assert(0x10_0000_0000_0000 * (p * 256) == 256 * (0x10_0000_0000_0000 * p))
        by (nonlinear_arith);
    assert(0x10_0000_0000_0000 * (2 * p) == 2 * (0x10_0000_0000_0000 * p)) by (nonlinear_arith);
    assert(p * 0x10_0000_0000_0000 == 0x10_0000_0000_0000 * p) by (nonlinear_arith);
}

/// Whether the pattern is a NaN.
pub fn is_nan_bits(b: u64) -> (r: bool)
    ensures
        r == is_nan(b),
{
    let low: u64 = b & 0x7FFF_FFFF_FFFF_FFFF;
    assert(low == b % 0x8000_0000_0000_0000) by (bit_vector)
        requires
            low == b & 0x7FFF_FFFF_FFFF_FFFF,
    ;
    low > 0x7FF0_0000_0000_0000
}

/// Whether the pattern is neither an infinity nor a NaN.
pub fn is_finite_bits(b: u64) -> (r: bool)
    ensures
        r == is_finite(b),
{
    let low: u64 = b & 0x7FFF_FFFF_FFFF_FFFF;
    assert(low == b % 0x8000_0000_0000_0000) by (bit_vector)
        requires
            low == b & 0x7FFF_FFFF_FFFF_FFFF,
    ;
    low < 0x7FF0_0000_0000_0000
}

/// Whether `a < b` as binary64 values.
pub fn less_than(a: u64, b: u64) -> (r: bool)
    ensures
        r == lt(a, b),
{
    if is_nan_bits(a) || is_nan_bits(b) {
        return false;
    }
    let low_a: u64 = a & 0x7FFF_FFFF_FFFF_FFFF;
    let low_b: u64 = b & 0x7FFF_FFFF_FFFF_FFFF;
    assert(low_a == a % 0x8000_0000_0000_0000) by (bit_vector)
        requires
            low_a == a & 0x7FFF_FFFF_FFFF_FFFF,
    ;
    assert(low_b == b % 0x8000_0000_0000_0000) by (bit_vector)
        requires
            low_b == b & 0x7FFF_FFFF_FFFF_FFFF,
    ;
    proof {
        lemma_magnitude_order(a, b);
        lemma_magnitude_order(b, a);
        lemma_magnitude_order(a, 0);
        lemma_magnitude_order(b, 0);
        assert(magnitude(0) == 0);
    }
    let neg_a = a >= 0x8000_0000_0000_0000;
    let neg_b = b >= 0x8000_0000_0000_0000;
    if neg_a {
        if neg_b {
            low_b < low_a
        } else {
            low_a != 0 || low_b != 0
        }
    } else {
        if neg_b {
            false
        } else {
            low_a < low_b
        }
    }
}

} // verus!
