//! Verified bridge between a row-major image buffer and the dense 2-D byte
//! matrix layout of an external vision library (OpenCV's `Mat`).
//!
//! The crate has two parts. The conversion layer maps each supported pixel
//! format to a matrix element descriptor whose channel count is proved equal
//! to the format's, and converts buffers to matrices and back, either as
//! borrowed views or as owned copies. The adapter maps the names of the
//! build capabilities that select one concrete release of the vision library
//! to the names of the dependencies they stand for.

use vstd::prelude::*;

pub mod adapter;
pub mod buffer;
pub mod convert;
pub mod format;
pub mod mat;

use crate::mat::MatError;

verus! {

/// Everything that a conversion can fail with.
///
/// `Opencv` forwards a failure of the matrix collaborator unchanged.
/// `DimensionMissmatch(len, channels, width, height)` reports that a matrix
/// whose backing storage holds `len` bytes was asked to become an image of
/// `width * height` pixels with `channels` bytes each, and
/// `len != width * height * channels`.
#[derive(Clone, Copy, Debug, PartialEq, Eq, Structural)]
pub enum Error {
    Opencv(MatError),
    DimensionMissmatch(usize, u8, i32, i32),
}

} // verus!
