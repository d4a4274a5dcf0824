//! Control of the escape-time iteration.
//!
//! The iteration itself is floating-point arithmetic and is done by the
//! caller. After each step the caller hands over the number of steps taken
//! and the squared magnitude of the iterate, as a binary64 bit pattern, and is
//! told whether to go on.

use crate::ieee::{is_finite, is_finite_bits, less_than, lt, TWO_FIFTY_SIX};
use vstd::prelude::*;

verus! {

/// The customary cap on the number of steps per point.
pub const MAX_ITER: u32 = 1500;

/// The squared escape radius, 2^8, as a binary64 bit pattern: an iterate
/// counts as escaped once its squared magnitude exceeds it.
pub const ESCAPE_RADIUS_SQUARED: u64 = TWO_FIFTY_SIX;

/// Whether an iterate with squared magnitude `mag2` has escaped: the
/// magnitude exceeds the escape radius, or it is no longer a finite number.
pub open spec fn escaped(mag2: u64) -> bool {
    !is_finite(mag2) || lt(ESCAPE_RADIUS_SQUARED, mag2)
}

/// Whether the iteration goes on after `steps` steps under the cap
/// `max_iter`, the iterate having squared magnitude `mag2`.
pub open spec fn continues(steps: u32, max_iter: u32, mag2: u64) -> bool {
    steps < max_iter && !escaped(mag2)
}

/// Whether an iterate with squared magnitude `mag2` has escaped.
pub fn has_escaped(mag2: u64) -> (r: bool)
    ensures
        r == escaped(mag2),
{
    !is_finite_bits(mag2) || less_than(ESCAPE_RADIUS_SQUARED, mag2)
}

/// Whether to take another step. The answer is no as soon as the iterate has
/// escaped or the cap is reached, so the caller's loop takes at most
/// `max_iter` steps.
pub fn keep_iterating(steps: u32, max_iter: u32, mag2: u64) -> (r: bool)
    ensures
        r == continues(steps, max_iter, mag2),
{
    steps < max_iter && !has_escaped(mag2)
}

/// A point whose iteration stopped before the cap escaped on its last step;
/// one that used the whole cap is presumed inside the set.
pub proof fn lemma_stopped_early_escaped(steps: u32, max_iter: u32, mag2: u64)
    requires
        !continues(steps, max_iter, mag2),
        steps < max_iter,
    ensures
        escaped(mag2),
{
}

} // verus!
