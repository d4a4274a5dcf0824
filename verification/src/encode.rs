//! Handing a finished pixel buffer to the PNG encoder.
//!
//! The encoder accepts a buffer only if it matches the grid exactly: 8 bits
//! per channel, three channels per pixel, `width * height` pixels. That match
//! is checked here, before the encoder sees the buffer.

use crate::grid::{Grid, RenderError};
use png::HasParameters;
use vstd::prelude::*;

verus! {

/// The error type of the `png` crate's encoder.
#[verifier::external_type_specification]
#[verifier::external_body]
pub struct ExEncodingError(png::EncodingError);

/// The PNG file that the `png` crate's encoder writes for an 8-bit RGB image
/// of `width` x `height` pixels with the pixel bytes `data`, with the
/// encoder's default compression and row filter.
pub uninterp spec fn png_rgb8(width: u32, height: u32, data: Seq<u8>) -> Seq<u8>;

/// Runs the `png` encoder into memory.
///
/// Trusted: the body is `png::Encoder::new` on an empty byte vector, the color
/// type set to RGB and the bit depth to eight, then `write_header` and
/// `write_image_data`. The contract claims that the encoder succeeds exactly
/// when the data holds three bytes for each pixel, which is the only refusal
/// of its own; every other error of it comes from the writer, and writing to a
/// vector does not fail. It also claims that the bytes written depend on the
/// dimensions and the pixel bytes alone. The preconditions keep the encoder's
/// own row-size arithmetic within `usize` and its rows non-empty.
#[verifier::external_body]
fn write_rgb8(width: u32, height: u32, data: &Vec<u8>) -> (res: Result<Vec<u8>, png::EncodingError>)
    requires
        0 < width,
        24 * width <= usize::MAX,
        3 * width * height <= usize::MAX,
    ensures
        res is Ok <==> data@.len() == 3 * width * height,
        res matches Ok(bytes) ==> bytes@ == png_rgb8(width, height, data@),
{
    let mut out: Vec<u8> = Vec::new();
    {
        let mut encoder = png::Encoder::new(&mut out, width, height);
        encoder.set(png::ColorType::RGB).set(png::BitDepth::Eight);
        let mut writer = encoder.write_header()?;
        writer.write_image_data(data)?;
    }
    Ok(out)
}

/// What the caller gets for each outcome of the encoder: the file on success,
/// a contract violation when the encoder refused its input.
pub fn encoded(outcome: Result<Vec<u8>, png::EncodingError>) -> (res: Result<Vec<u8>, RenderError>)
    ensures
        outcome matches Ok(bytes) ==> res == Ok::<Vec<u8>, RenderError>(bytes),
        outcome is Err ==> res == Err::<Vec<u8>, RenderError>(RenderError::ContractViolation),
{
    match outcome {
        Ok(bytes) => Ok(bytes),
        Err(_) => Err(RenderError::ContractViolation),
    }
}

/// Whether `len` bytes are exactly a buffer for a grid of `width` x `height`
/// pixels that the encoder can take rows of.
pub open spec fn fits_encoder(width: int, height: int, len: int) -> bool {
    &&& len == 3 * (width * height)
    &&& 24 * width <= usize::MAX
}

/// Checks a buffer against the grid: its length must be three bytes for each
/// pixel, and a row must be addressable in bits.
pub fn check_buffer(grid: &Grid, len: usize) -> (res: Result<(), RenderError>)
    ensures
        fits_encoder(grid.cols(), grid.rows(), len as int) ==> res is Ok,
        !fits_encoder(grid.cols(), grid.rows(), len as int) ==> res == Err::<(), RenderError>(
            RenderError::ContractViolation,
        ),
{
    if len != grid.buffer_len() {
        return Err(RenderError::ContractViolation);
    }
    if 24 * (grid.width() as u64) > usize::MAX as u64 {
        return Err(RenderError::ContractViolation);
    }
    Ok(())
}

/// Encodes a pixel buffer as a PNG file in memory. A buffer that matches the
/// grid is always encoded; one that does not is a contract violation and
/// never reaches the encoder.
pub fn encode_png(grid: &Grid, data: &Vec<u8>) -> (res: Result<Vec<u8>, RenderError>)
    ensures
        fits_encoder(grid.cols(), grid.rows(), data.len() as int) ==> res is Ok && res->Ok_0@
            == png_rgb8(grid.cols() as u32, grid.rows() as u32, data@),
        !fits_encoder(grid.cols(), grid.rows(), data.len() as int) ==> res == Err::<
            Vec<u8>,
            RenderError,
        >(RenderError::ContractViolation),
{
    match check_buffer(grid, data.len()) {
        Err(e) => Err(e),
        Ok(()) => {
            let width = grid.width();
            let height = grid.height();
            assert(3 * width * height == 3 * (width * height)) by (nonlinear_arith);
            encoded(write_rgb8(width, height, data))
        },
    }
}

} // verus!
