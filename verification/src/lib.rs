//! Raster rendering of escape-time fractals: the pixel grid, the viewport, the
//! palette, the row-major pixel buffer, the drivers that fill it and the
//! hand-over to the PNG encoder.
//!
//! The library computes on integers only. Binary64 values appear as bit
//! patterns, which it orders but never does arithmetic on; the arithmetic of a
//! single point of the complex plane is the caller's, supplied as a per-pixel
//! shader.

pub mod color;
pub mod encode;
pub mod escape;
pub mod grid;
pub mod ieee;
pub mod raster;
pub mod viewport;
