//! The viewport: the rectangle of the complex plane that is mapped onto the
//! grid. Its four bounds are binary64 values, held as bit patterns.

use crate::grid::RenderError;
use crate::ieee::{less_than, lt};
use vstd::prelude::*;

verus! {

/// Whether the four bounds describe a rectangle: along each axis the minimum
/// is strictly below the maximum. A NaN bound is below or above nothing, so it
/// describes none.
pub open spec fn valid_bounds(x_min: u64, x_max: u64, y_min: u64, y_max: u64) -> bool {
    lt(x_min, x_max) && lt(y_min, y_max)
}

/// The visible rectangle, fixed for the duration of a render.
#[derive(Clone, Copy, Debug)]
pub struct Viewport {
    x_min: u64,
    x_max: u64,
    y_min: u64,
    y_max: u64,
}

impl Viewport {
    /// The bounds as (x_min, x_max, y_min, y_max).
    pub closed spec fn bounds(&self) -> (u64, u64, u64, u64) {
        (self.x_min, self.x_max, self.y_min, self.y_max)
    }

    /// Every viewport that exists at run time is a rectangle.
    pub open spec fn wf(&self) -> bool {
        valid_bounds(self.bounds().0, self.bounds().1, self.bounds().2, self.bounds().3)
    }

    #[verifier::type_invariant]
    pub(crate) open spec fn inv(&self) -> bool {
        self.wf()
    }

    /// The viewport with the given bounds, or `InvalidConfiguration` when a
    /// maximum is not above its minimum.
    pub fn new(x_min: u64, x_max: u64, y_min: u64, y_max: u64) -> (res: Result<
        Viewport,
        RenderError,
    >)
        ensures
            valid_bounds(x_min, x_max, y_min, y_max) ==> res is Ok && res->Ok_0.bounds() == (
                x_min,
                x_max,
                y_min,
                y_max,
            ),
            !valid_bounds(x_min, x_max, y_min, y_max) ==> res == Err::<Viewport, RenderError>(
                RenderError::InvalidConfiguration,
            ),
    {
        if less_than(x_min, x_max) && less_than(y_min, y_max) {
            Ok(Viewport { x_min, x_max, y_min, y_max })
        } else {
            Err(RenderError::InvalidConfiguration)
        }
    }

    /// The lower bound of the real axis.
    pub fn x_min(&self) -> (b: u64)
        ensures
            b == self.bounds().0,
            self.wf(),
    {
        proof {
            use_type_invariant(self);
        }
        self.x_min
    }

    /// The upper bound of the real axis.
    pub fn x_max(&self) -> (b: u64)
        ensures
            b == self.bounds().1,
            self.wf(),
    {
        proof {
            use_type_invariant(self);
        }
        self.x_max
    }

    /// The lower bound of the imaginary axis.
    pub fn y_min(&self) -> (b: u64)
        ensures
            b == self.bounds().2,
            self.wf(),
    {
        proof {
            use_type_invariant(self);
        }
        self.y_min
    }

    /// The upper bound of the imaginary axis.
    pub fn y_max(&self) -> (b: u64)
        ensures
            b == self.bounds().3,
            self.wf(),
    {
        proof {
            use_type_invariant(self);
        }
        self.y_max
    }
}

} // verus!
