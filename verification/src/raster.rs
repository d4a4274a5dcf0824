//! The pixel buffer and the drivers that fill it from a per-pixel shader.
//!
//! A buffer is a flat row-major sequence of bytes, three per pixel. A shader is
//! any function from the viewport and a (column, row) coordinate to a color;
//! what the drivers promise is stated over the shader's own contract.

use crate::color::{channel, Color};
use crate::grid::{
    col_of, lemma_coord_in_range, lemma_coord_of_index, lemma_index_in_range, row_of, valid_dims,
    Grid, RenderError,
};
use rayon::iter::{IntoParallelIterator, ParallelIterator};
use crate::viewport::{valid_bounds, Viewport};
use vstd::prelude::*;

verus! {

/// The bytes of a sequence of pixels, in order.
pub open spec fn flatten(colors: Seq<Color>) -> Seq<u8> {
    Seq::new(3 * colors.len(), |i: int| channel(colors[i / 3], i % 3))
}

/// The pixel that a buffer holds at index `p`.
pub open spec fn pixel_at(buf: Seq<u8>, p: int) -> Color {
    Color { r: buf[3 * p], g: buf[3 * p + 1], b: buf[3 * p + 2] }
}

/// The shader may be called on every coordinate of the grid.
pub open spec fn accepts_grid<F: Fn(Viewport, u32, u32) -> Color>(f: F, view: Viewport, grid: Grid) -> bool {
    forall|col: u32, row: u32|
        col < grid.cols() && row < grid.rows() ==> #[trigger] call_requires(f, (view, col, row))
}

/// `colors` holds, for every pixel index in order, a color that the shader
/// gives for that pixel's coordinate.
pub open spec fn shaded_by<F: Fn(Viewport, u32, u32) -> Color>(f: F, view: Viewport, grid: Grid, colors: Seq<Color>) -> bool {
    &&& colors.len() == grid.count()
    &&& forall|p: int|
        0 <= p < grid.count() ==> call_ensures(
            f,
            (view, col_of(p, grid.cols()) as u32, row_of(p, grid.cols()) as u32),
            #[trigger] colors[p],
        )
}

/// `buf` is a complete render of the grid: three bytes for every pixel, and
/// the pixel at index `p` is a color that the shader gives for column
/// `p mod width` and row `p div width`.
pub open spec fn rendered_by<F: Fn(Viewport, u32, u32) -> Color>(f: F, view: Viewport, grid: Grid, buf: Seq<u8>) -> bool {
    &&& buf.len() == 3 * grid.count()
    &&& forall|p: int|
        0 <= p < grid.count() ==> call_ensures(
            f,
            (view, col_of(p, grid.cols()) as u32, row_of(p, grid.cols()) as u32),
            #[trigger] pixel_at(buf, p),
        )
}

/// The shader is a function on the grid: it has one answer per coordinate.
pub open spec fn single_valued<F: Fn(Viewport, u32, u32) -> Color>(f: F, view: Viewport, grid: Grid) -> bool {
    forall|col: u32, row: u32, a: Color, b: Color|
        col < grid.cols() && row < grid.rows() && #[trigger] call_ensures(f, (view, col, row), a)
            && #[trigger] call_ensures(f, (view, col, row), b) ==> a == b
}

/// Concatenates the pixels into a buffer, three bytes each, in index order.
pub fn assemble(colors: &Vec<Color>) -> (buf: Vec<u8>)
    requires
        3 * colors.len() <= usize::MAX,
    ensures
        buf@ == flatten(colors@),
{
    let mut buf: Vec<u8> = Vec::new();
    let mut i: usize = 0;
    while i < colors.len()
        invariant
            i <= colors.len(),
            3 * colors.len() <= usize::MAX,
            buf@ == flatten(colors@.take(i as int)),
        decreases colors.len() - i,
    {
        let c = colors[i];
        buf.push(c.r);
        buf.push(c.g);
        buf.push(c.b);
        proof {
            let prev = colors@.take(i as int);
            let next = colors@.take(i + 1);
            assert(next =~= prev.push(c));
            assert(buf@ =~= flatten(next));
        }
        i += 1;
    }
    assert(colors@.take(i as int) =~= colors@);
    buf
}

/// The color of pixel `p`: the shader applied to its coordinate.
pub fn shade_pixel<F: Fn(Viewport, u32, u32) -> Color>(grid: &Grid, view: &Viewport, f: &F, p: u32) -> (c: Color)
    requires
        p < grid.count(),
        accepts_grid(*f, *view, *grid),
    ensures
        call_ensures(*f, (*view, col_of(p as int, grid.cols()) as u32, row_of(p as int, grid.cols()) as u32), c),
{
    let width = grid.width();
    proof {
        lemma_coord_in_range(p as int, grid.cols(), grid.rows());
    }
    f(*view, p % width, p / width)
}

/// Renders the grid row by row: for every row, for every column of it, the
/// shader's color is appended to the buffer.
pub fn mandelbrot_space<F: Fn(Viewport, u32, u32) -> Color>(grid: &Grid, view: &Viewport, f: &F) -> (buf: Vec<u8>)
    requires
        accepts_grid(*f, *view, *grid),
    ensures
        rendered_by(*f, *view, *grid, buf@),
        buf.len() == 3 * (grid.cols() * grid.rows()),
{
    let width = grid.width();
    let height = grid.height();
    let mut data: Vec<u8> = Vec::new();
    let mut row: u32 = 0;
    while row < height
        invariant
            row <= height,
            width == grid.cols(),
            height == grid.rows(),
            grid.wf(),
            accepts_grid(*f, *view, *grid),
            data.len() == 3 * (row * width),
            forall|p: int|
                0 <= p < row * width ==> call_ensures(
                    *f,
                    (*view, col_of(p, width as int) as u32, row_of(p, width as int) as u32),
                    #[trigger] pixel_at(data@, p),
                ),
        decreases height - row,
    {
        let mut col: u32 = 0;
        while col < width
            invariant
                row < height,
                col <= width,
                width == grid.cols(),
                height == grid.rows(),
                grid.wf(),
                accepts_grid(*f, *view, *grid),
                data.len() == 3 * (row * width + col),
                forall|p: int|
                    0 <= p < row * width + col ==> call_ensures(
                        *f,
                        (*view, col_of(p, width as int) as u32, row_of(p, width as int) as u32),
                        #[trigger] pixel_at(data@, p),
                    ),
            decreases width - col,
        {
            let c = f(*view, col, row);
            let ghost before = data@;
            let ghost here = row * width + col;
            proof {
                lemma_index_in_range(col as int, row as int, width as int, height as int);
                lemma_coord_of_index(col as int, row as int, width as int);
            }
            data.push(c.r);
            data.push(c.g);
            data.push(c.b);
            proof {
                assert(pixel_at(data@, here) == c);
                assert forall|p: int| 0 <= p < here + 1 implies call_ensures(
                    *f,
                    (*view, col_of(p, width as int) as u32, row_of(p, width as int) as u32),
                    #[trigger] pixel_at(data@, p),
                ) by {
                    if p < here {
                        assert(pixel_at(data@, p) == pixel_at(before, p));
                    }
                }
            }
            col += 1;
        }
        proof {
            assert(row * width + width == (row + 1) * width) by (nonlinear_arith);
        }
        row += 1;
    }
    proof {
        assert(row * width == grid.count()) by (nonlinear_arith)
            requires
                row == grid.rows(),
                width == grid.cols(),
                grid.count() == grid.cols() * grid.rows(),
        ;
    }
    data
}

/// Shades the pixels `0..n` on rayon's thread pool and collects the colors in
/// index order.
///
/// Trusted: the body is `rayon`'s `into_par_iter().map(..).collect()` over the
/// index range `0..n`. The contract claims what rayon documents of collecting
/// an indexed parallel iterator into a `Vec`: one item per index, in the order
/// of the indices, each the result of one call of the mapped function on that
/// index. Here that function is `shade_pixel`.
#[verifier::external_body]
fn par_shade<F: Fn(Viewport, u32, u32) -> Color + Sync>(
    grid: &Grid,
    view: &Viewport,
    f: &F,
    n: u32,
) -> (colors: Vec<Color>)
    requires
        grid.wf(),
        n == grid.count(),
        accepts_grid(*f, *view, *grid),
    ensures
        shaded_by(*f, *view, *grid, colors@),
{
    (0..n).into_par_iter().map(|p| shade_pixel(grid, view, f, p)).collect()
}

/// Renders the grid with every pixel shaded independently and in parallel.
/// The colors are collected by pixel index and concatenated in that order, so
/// the buffer does not depend on the order in which the pixels were finished.
pub fn mandelbrot_par_space<F: Fn(Viewport, u32, u32) -> Color + Sync>(
    grid: &Grid,
    view: &Viewport,
    f: &F,
) -> (buf: Vec<u8>)
    requires
        accepts_grid(*f, *view, *grid),
    ensures
        rendered_by(*f, *view, *grid, buf@),
        buf.len() == 3 * (grid.cols() * grid.rows()),
{
    let n = grid.pixel_count();
    let colors = par_shade(grid, view, f, n);
    let buf = assemble(&colors);
    proof {
        lemma_flatten_rendered(*f, *view, *grid, colors@);
    }
    buf
}

/// The configuration of one render: the grid dimensions and the four bounds of
/// the viewport, as binary64 bit patterns.
#[derive(Clone, Copy, Debug)]
pub struct Config {
    pub width: u32,
    pub height: u32,
    pub x_min: u64,
    pub x_max: u64,
    pub y_min: u64,
    pub y_max: u64,
}

/// How the pixels are worked through.
#[derive(Clone, Copy, Debug, PartialEq, Eq, Structural)]
pub enum Schedule {
    /// Row by row, on the calling thread.
    Sequential,
    /// Every pixel independently, on the thread pool.
    Parallel,
}

/// A finished render: the validated grid and viewport, and the buffer.
#[derive(Debug)]
pub struct Render {
    pub grid: Grid,
    pub view: Viewport,
    pub buffer: Vec<u8>,
}

impl Config {
    /// The dimensions are admissible and the bounds describe a rectangle.
    pub open spec fn valid(&self) -> bool {
        &&& valid_dims(self.width as int, self.height as int)
        &&& valid_bounds(self.x_min, self.x_max, self.y_min, self.y_max)
    }

    /// `grid` and `view` are the grid and the viewport of this configuration.
    pub open spec fn describes(&self, grid: Grid, view: Viewport) -> bool {
        &&& grid.cols() == self.width
        &&& grid.rows() == self.height
        &&& view.bounds() == (self.x_min, self.x_max, self.y_min, self.y_max)
    }
}

/// Validates the configuration and then renders it. A malformed grid or
/// viewport is refused with `InvalidConfiguration` before the shader is called
/// for any pixel; a valid configuration always yields a complete buffer.
pub fn render<F: Fn(Viewport, u32, u32) -> Color + Sync>(
    config: &Config,
    schedule: Schedule,
    f: &F,
) -> (res: Result<Render, RenderError>)
    requires
        forall|grid: Grid, view: Viewport|
            config.describes(grid, view) ==> #[trigger] accepts_grid(*f, view, grid),
    ensures
        !config.valid() ==> res is Err && res->Err_0 == RenderError::InvalidConfiguration,
        config.valid() ==> res is Ok && config.describes(res->Ok_0.grid, res->Ok_0.view)
            && rendered_by(*f, res->Ok_0.view, res->Ok_0.grid, res->Ok_0.buffer@)
            && res->Ok_0.buffer.len() == 3 * (config.width * config.height),
{
    let grid = match Grid::new(config.width, config.height) {
        Ok(grid) => grid,
        Err(e) => {
            return Err(e);
        },
    };
    let view = match Viewport::new(config.x_min, config.x_max, config.y_min, config.y_max) {
        Ok(view) => view,
        Err(e) => {
            return Err(e);
        },
    };
    let buffer = match schedule {
        Schedule::Sequential => mandelbrot_space(&grid, &view, f),
        Schedule::Parallel => mandelbrot_par_space(&grid, &view, f),
    };
    Ok(Render { grid, view, buffer })
}

/// The pixel that the flattened buffer holds at index `p` is the `p`-th color.
pub proof fn lemma_flatten_pixel(colors: Seq<Color>, p: int)
    requires
        0 <= p < colors.len(),
    ensures
        flatten(colors).len() == 3 * colors.len(),
        pixel_at(flatten(colors), p) == colors[p],
{
    let buf = flatten(colors);
    assert(buf[3 * p] == channel(colors[(3 * p) / 3], (3 * p) % 3));
    assert(buf[3 * p + 1] == channel(colors[(3 * p + 1) / 3], (3 * p + 1) % 3));
    assert(buf[3 * p + 2] == channel(colors[(3 * p + 2) / 3], (3 * p + 2) % 3));
}

/// Concatenating per-index colors in index order gives a render: if `colors`
/// holds the shader's color for every pixel, its bytes are a complete buffer
/// in row-major order.
pub proof fn lemma_flatten_rendered<F: Fn(Viewport, u32, u32) -> Color>(f: F, view: Viewport, grid: Grid, colors: Seq<Color>)
    requires
        shaded_by(f, view, grid, colors),
    ensures
        rendered_by(f, view, grid, flatten(colors)),
{
    let buf = flatten(colors);
    assert forall|p: int| 0 <= p < grid.count() implies call_ensures(
        f,
        (view, col_of(p, grid.cols()) as u32, row_of(p, grid.cols()) as u32),
        #[trigger] pixel_at(buf, p),
    ) by {
        lemma_flatten_pixel(colors, p);
        assert(call_ensures(
            f,
            (view, col_of(p, grid.cols()) as u32, row_of(p, grid.cols()) as u32),
            colors[p],
        ));
    }
}

/// A render is a function of the grid, the viewport and the shader alone.
/// Whenever the shader has one answer per coordinate, any two complete renders
/// of the same grid and viewport are the same buffer, byte for byte: rendering
/// again changes nothing, and the parallel and the sequential driver agree.
pub proof fn lemma_render_unique<F: Fn(Viewport, u32, u32) -> Color>(f: F, view: Viewport, grid: Grid, a: Seq<u8>, b: Seq<u8>)
    requires
        grid.wf(),
        single_valued(f, view, grid),
        rendered_by(f, view, grid, a),
        rendered_by(f, view, grid, b),
    ensures
        a == b,
{
    assert forall|i: int| 0 <= i < a.len() implies a[i] == b[i] by {
        let p = i / 3;
        lemma_coord_in_range(p, grid.cols(), grid.rows());
        let col = col_of(p, grid.cols()) as u32;
        let row = row_of(p, grid.cols()) as u32;
        assert(call_ensures(f, (view, col, row), pixel_at(a, p)));
        assert(call_ensures(f, (view, col, row), pixel_at(b, p)));
        assert(pixel_at(a, p) == pixel_at(b, p));
    }
    assert(a =~= b);
}

/// A complete render holds exactly three bytes for each of the
/// `width * height` pixels of its grid.
pub proof fn lemma_render_len<F: Fn(Viewport, u32, u32) -> Color>(f: F, view: Viewport, grid: Grid, buf: Seq<u8>)
    requires
        rendered_by(f, view, grid, buf),
    ensures
        buf.len() == grid.cols() * grid.rows() * 3,
{
}

/// The render of a shader that computes a function. If every color that the
/// shader may give for a coordinate is `color(view, col, row)`, then the
/// buffer is determined by the grid, the viewport and `color`: it is the
/// concatenation, over the pixel indices `p` in order, of the color of column
/// `p mod width` and row `p div width`.
pub proof fn lemma_render_of_function<F: Fn(Viewport, u32, u32) -> Color>(
    f: F,
    view: Viewport,
    grid: Grid,
    color: spec_fn(Viewport, u32, u32) -> Color,
    buf: Seq<u8>,
)
    requires
        grid.wf(),
        rendered_by(f, view, grid, buf),
        forall|col: u32, row: u32, c: Color|
            col < grid.cols() && row < grid.rows() && #[trigger] call_ensures(f, (view, col, row), c)
                ==> c == color(view, col, row),
    ensures
        buf == flatten(
            Seq::new(
                grid.count() as nat,
                |p: int| color(view, col_of(p, grid.cols()) as u32, row_of(p, grid.cols()) as u32),
            ),
        ),
{
    let colors = Seq::new(
        grid.count() as nat,
        |p: int| color(view, col_of(p, grid.cols()) as u32, row_of(p, grid.cols()) as u32),
    );
    assert(grid.count() >= 0) by (nonlinear_arith)
        requires
            grid.cols() > 0,
            grid.rows() > 0,
            grid.count() == grid.cols() * grid.rows(),
    ;
    assert forall|i: int| 0 <= i < buf.len() implies buf[i] == flatten(colors)[i] by {
        let p = i / 3;
        lemma_coord_in_range(p, grid.cols(), grid.rows());
        let col = col_of(p, grid.cols()) as u32;
        let row = row_of(p, grid.cols()) as u32;
        assert(call_ensures(f, (view, col, row), pixel_at(buf, p)));
        assert(pixel_at(buf, p) == colors[p]);
    }
    assert(buf =~= flatten(colors));
}

} // verus!
