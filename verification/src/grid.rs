//! The pixel grid: its dimensions and the correspondence between a linear
//! pixel index and a (column, row) coordinate.

use vstd::prelude::*;

verus! {

/// Why a render was refused.
#[derive(Clone, Copy, Debug, PartialEq, Eq, Structural)]
pub enum RenderError {
    /// The configuration of the render is malformed: an empty grid, or one
    /// whose pixels cannot be indexed or whose buffer cannot be allocated.
    InvalidConfiguration,
    /// A buffer handed to the image encoder does not match the grid.
    ContractViolation,
}

/// Whether `width` x `height` is an admissible grid: both positive, every
/// pixel index fits in `u32`, and three bytes per pixel fit in `usize`.
pub open spec fn valid_dims(width: int, height: int) -> bool {
    &&& 0 < width
    &&& 0 < height
    &&& width * height <= u32::MAX
    &&& 3 * (width * height) <= usize::MAX
}

/// Column of pixel `p` in a grid `width` pixels wide.
pub open spec fn col_of(p: int, width: int) -> int {
    p % width
}

/// Row of pixel `p` in a grid `width` pixels wide.
pub open spec fn row_of(p: int, width: int) -> int {
    p / width
}

/// Linear index of the pixel at (`col`, `row`) in a grid `width` pixels wide.
pub open spec fn index_of(col: int, row: int, width: int) -> int {
    row * width + col
}

/// Dimensions of a render, fixed for its duration.
#[derive(Clone, Copy, Debug)]
pub struct Grid {
    width: u32,
    height: u32,
}

impl Grid {
    /// Number of columns.
    pub closed spec fn cols(&self) -> int {
        self.width as int
    }

    /// Number of rows.
    pub closed spec fn rows(&self) -> int {
        self.height as int
    }

    /// Number of pixels.
    pub open spec fn count(&self) -> int {
        self.cols() * self.rows()
    }

    /// Every grid that exists at run time has admissible dimensions.
    pub open spec fn wf(&self) -> bool {
        valid_dims(self.cols(), self.rows())
    }

    #[verifier::type_invariant]
    pub(crate) open spec fn inv(&self) -> bool {
        self.wf()
    }

    /// A grid of `width` x `height` pixels, or `InvalidConfiguration` when the
    /// dimensions are not admissible.
    pub fn new(width: u32, height: u32) -> (res: Result<Grid, RenderError>)
        ensures
            valid_dims(width as int, height as int) ==> res is Ok && res->Ok_0.cols() == width
                && res->Ok_0.rows() == height && res->Ok_0.wf(),
            !valid_dims(width as int, height as int) ==> res == Err::<Grid, RenderError>(
                RenderError::InvalidConfiguration,
            ),
    {
        if width == 0 || height == 0 {
            return Err(RenderError::InvalidConfiguration);
        }
        assert(width as int * height as int <= u64::MAX) by (nonlinear_arith)
            requires
                width <= u32::MAX,
                height <= u32::MAX,
        ;
        let pixels: u64 = width as u64 * height as u64;
        if pixels > u32::MAX as u64 {
            return Err(RenderError::InvalidConfiguration);
        }
        if 3 * pixels > usize::MAX as u64 {
            return Err(RenderError::InvalidConfiguration);
        }
        Ok(Grid { width, height })
    }

    /// The number of columns.
    pub fn width(&self) -> (w: u32)
        ensures
            w == self.cols(),
            self.wf(),
    {
        proof {
            use_type_invariant(self);
        }
        self.width
    }

    /// The number of rows.
    pub fn height(&self) -> (h: u32)
        ensures
            h == self.rows(),
            self.wf(),
    {
        proof {
            use_type_invariant(self);
        }
        self.height
    }

    /// The number of pixels, which is also the end of the index range.
    pub fn pixel_count(&self) -> (n: u32)
        ensures
            n == self.count(),
            self.wf(),
    {
        proof {
            use_type_invariant(self);
        }
        self.width * self.height
    }

    /// The length in bytes of a pixel buffer for this grid.
    pub fn buffer_len(&self) -> (n: usize)
        ensures
            n == 3 * self.count(),
            self.wf(),
    {
        proof {
            use_type_invariant(self);
        }
        let pixels: u32 = self.width * self.height;
        3 * (pixels as usize)
    }

    /// The (column, row) of pixel `p`, or `None` when `p` is past the grid.
    pub fn coord(&self, p: u32) -> (res: Option<(u32, u32)>)
        ensures
            self.wf(),
            p < self.count() ==> res == Some(
                (col_of(p as int, self.cols()) as u32, row_of(p as int, self.cols()) as u32),
            ),
            p >= self.count() ==> res is None,
    {
        proof {
            use_type_invariant(self);
        }
        if p < self.width * self.height {
            Some((p % self.width, p / self.width))
        } else {
            None
        }
    }

    /// The linear index of the pixel at (`col`, `row`), or `None` when the
    /// coordinate lies outside the grid.
    pub fn index(&self, col: u32, row: u32) -> (res: Option<u32>)
        ensures
            self.wf(),
            col < self.cols() && row < self.rows() ==> res == Some(
                index_of(col as int, row as int, self.cols()) as u32,
            ),
            !(col < self.cols() && row < self.rows()) ==> res is None,
    {
        proof {
            use_type_invariant(self);
        }
        if col < self.width && row < self.height {
            proof {
                lemma_index_in_range(col as int, row as int, self.cols(), self.rows());
            }
            Some(row * self.width + col)
        } else {
            None
        }
    }
}

/// The index of a coordinate inside the grid is inside the index range.
pub proof fn lemma_index_in_range(col: int, row: int, width: int, height: int)
    requires
        0 <= col < width,
        0 <= row < height,
    ensures
        0 <= row * width <= index_of(col, row, width) < width * height,
{
    assert(0 <= row * width && row * width + width <= width * height) by (nonlinear_arith)
        requires
            0 <= row < height,
            0 < width,
    ;
}

/// The coordinate of an index inside the range is inside the grid.
pub proof fn lemma_coord_in_range(p: int, width: int, height: int)
    requires
        0 < width,
        0 <= p < width * height,
    ensures
        0 <= col_of(p, width) < width,
        0 <= row_of(p, width) < height,
{
    assert(0 <= p % width < width && 0 <= p / width < height) by (nonlinear_arith)
        requires
            0 < width,
            0 <= p < width * height,
    ;
}

/// Index and coordinate are inverse to each other on the grid: the pixel at
/// the coordinate of `p` is `p`.
pub proof fn lemma_index_of_coord(p: int, width: int)
    requires
        0 < width,
        0 <= p,
    ensures
        index_of(col_of(p, width), row_of(p, width), width) == p,
{
    assert((p / width) * width + p % width == p) by (nonlinear_arith)
        requires
            0 < width,
    ;
}

/// Index and coordinate are inverse to each other on the grid: the
/// coordinate of the pixel at (`col`, `row`) is (`col`, `row`).
pub proof fn lemma_coord_of_index(col: int, row: int, width: int)
    requires
        0 <= col < width,
        0 <= row,
    ensures
        col_of(index_of(col, row, width), width) == col,
        row_of(index_of(col, row, width), width) == row,
{
    assert((row * width + col) % width == col && (row * width + col) / width == row)
        by (nonlinear_arith)
        requires
            0 <= col < width,
            0 <= row,
    ;
}

} // verus!
