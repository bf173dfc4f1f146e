//! The conversion layer: buffers to matrices and back, as borrowed views
//! or as owned copies.
//!
//! A buffer of `width * height` pixels with `channels` bytes each and a
//! matrix of `rows = height` by `cols = width` elements of `channels` bytes
//! have byte-identical storage, so a conversion reinterprets the bytes and
//! never rearranges them. The matrix direction needs no validation beyond
//! what the matrix constructor itself checks; the image direction checks at
//! run time that the byte length fits the claimed dimensions and reports a
//! `DimensionMissmatch` otherwise.

use vstd::prelude::*;

use crate::buffer::{image_wf, ImageBuf, ImageRef, SpecImage};
use crate::format::PixelFormat;
use crate::mat::{mat_wf, Mat, MatRef, SpecMat};
use crate::Error;

verus! {

/// The matrix a buffer converts to: `rows = height`, `cols = width`, the
/// buffer's format's element descriptor, and the same bytes.
pub open spec fn mat_of(img: SpecImage) -> SpecMat {
    SpecMat {
        rows: img.height,
        cols: img.width,
        elem: img.format.spec_mat_elem(),
        data: img.data,
    }
}

/// The buffer a matrix converts to under `format`: `width = cols`,
/// `height = rows`, and the same bytes.
pub open spec fn image_of(m: SpecMat, format: PixelFormat) -> SpecImage {
    SpecImage { width: m.cols, height: m.rows, format, data: m.data }
}

/// When the image direction succeeds: the matrix's bytes are exactly one
/// byte per subpixel of a `cols` by `rows` buffer of `format` pixels.
pub open spec fn image_len_ok(m: SpecMat, format: PixelFormat) -> bool {
    m.data.len() == m.cols * m.rows * format.spec_channels()
}

/// Conversion of an image buffer into the matrix representation.
pub trait ToMat: View<V = SpecImage> {
    /// Reinterprets the buffer's bytes, without copying, as a matrix view
    /// of `rows = height` and `cols = width` whose element descriptor is
    /// the one the buffer's format maps to. Fails only when a dimension
    /// does not fit the matrix library's signed dimension type, in which
    /// case the collaborator's error is forwarded unchanged.
    fn as_mat<'a>(&'a self) -> (r: Result<MatRef<'a>, Error>)
        ensures
            r matches Ok(m) ==> m@ == mat_of(self@) && mat_wf(m@),
            r is Ok <==> self@.width <= i32::MAX && self@.height <= i32::MAX,
            r matches Err(e) ==> e is Opencv,
    ;

    /// Like `as_mat`, but duplicates the storage into an independently
    /// owned matrix.
    fn to_mat(&self) -> (r: Result<Mat, Error>)
        ensures
            r matches Ok(m) ==> m@ == mat_of(self@) && mat_wf(m@),
            r is Ok <==> self@.width <= i32::MAX && self@.height <= i32::MAX,
            r matches Err(e) ==> e is Opencv,
    {
        match self.as_mat() {
            Ok(view) => match view.try_clone() {
                Ok(m) => Ok(m),
                Err(e) => Err(Error::Opencv(e)),
            },
            Err(e) => Err(e),
        }
    }
}

/// Conversion of a matrix into the image buffer representation.
pub trait ToImage: View<V = SpecMat> {
    /// Reinterprets the matrix's bytes, without copying, as a buffer view
    /// of `width = cols` and `height = rows` in `format`. Fails with
    /// `DimensionMissmatch` exactly when the byte length is not
    /// `width * height * channels`, reporting the observed length, the
    /// expected channel count and the dimensions.
    fn as_image<'a>(&'a self, format: PixelFormat) -> (r: Result<ImageRef<'a>, Error>)
        ensures
            r matches Ok(img) ==> img@ == image_of(self@, format) && image_wf(img@),
            r is Ok <==> image_len_ok(self@, format),
            r matches Err(e) ==> e == Error::DimensionMissmatch(
                self@.data.len() as usize,
                format.spec_channels(),
                self@.cols as i32,
                self@.rows as i32,
            ),
    ;

    /// Like `as_image`, but first duplicates the matrix's bytes, so the
    /// returned buffer owns its storage and outlives the matrix.
    fn to_image(&self, format: PixelFormat) -> (r: Result<ImageBuf, Error>)
        ensures
            r matches Ok(img) ==> img@ == image_of(self@, format) && image_wf(img@),
            r is Ok <==> image_len_ok(self@, format),
            r matches Err(e) ==> e == Error::DimensionMissmatch(
                self@.data.len() as usize,
                format.spec_channels(),
                self@.cols as i32,
                self@.rows as i32,
            ),
    ;
}

impl ToMat for ImageBuf {
    /// Builds the matrix header over the buffer's own bytes; the bytes are
    /// not copied and not rearranged.
    fn as_mat<'a>(&'a self) -> (r: Result<MatRef<'a>, Error>) {
        proof {
            use_type_invariant(self);
        }
        if self.width() > i32::MAX as u32 || self.height() > i32::MAX as u32 {
            return Err(Error::Opencv(crate::mat::MatError::BadSize));
        }
        let rows: i32 = self.height() as i32;
        let cols: i32 = self.width() as i32;
        let elem = self.format().mat_elem();
        proof {
            crate::format::lemma_descriptor_matches_format(self@.format);
            assert(self@.data.len() == rows as int * cols as int * elem.channels as int)
                by (nonlinear_arith)
                requires
                    self@.data.len() == self@.width * self@.height * self@.format.spec_channels(),
                    rows as int == self@.height,
                    cols as int == self@.width,
                    elem.channels as int == self@.format.spec_channels() as int,
            ;
        }
        match MatRef::new_rows_cols_with_data(rows, cols, elem, self.as_raw()) {
            Ok(m) => Ok(m),
            Err(e) => Err(Error::Opencv(e)),
        }
    }
}

/// The image direction shared by the borrowed and the owned conversion:
/// turns `data`, known to be the bytes of the matrix `m`, into a buffer
/// view, or reports the mismatch the way the conversion layer does.
fn to_image_raw<'a>(data: &'a [u8], rows: i32, cols: i32, format: PixelFormat, Ghost(m): Ghost<
    SpecMat,
>) -> (r: Result<ImageRef<'a>, Error>)
    requires
        mat_wf(m),
        data@ == m.data,
        rows as int == m.rows,
        cols as int == m.cols,
    ensures
        r matches Ok(img) ==> img@ == image_of(m, format) && image_wf(img@),
        r is Ok <==> image_len_ok(m, format),
        r matches Err(e) ==> e == Error::DimensionMissmatch(
            m.data.len() as usize,
            format.spec_channels(),
            m.cols as i32,
            m.rows as i32,
        ),
{
    let width: u32 = cols as u32;
    let height: u32 = rows as u32;
    match ImageRef::from_raw(width, height, format, data) {
        Some(img) => Ok(img),
        None => Err(
            Error::DimensionMissmatch(data.len(), format.channels(), cols, rows),
        ),
    }
}

impl ToImage for Mat {
    fn as_image<'a>(&'a self, format: PixelFormat) -> (r: Result<ImageRef<'a>, Error>) {
        proof {
            use_type_invariant(self);
        }
        to_image_raw(self.data_bytes(), self.rows(), self.cols(), format, Ghost(self@))
    }

    fn to_image(&self, format: PixelFormat) -> (r: Result<ImageBuf, Error>) {
        match self.as_image(format) {
            Ok(view) => Ok(view.to_owned_buf()),
            Err(e) => Err(e),
        }
    }
}

impl<'m> ToImage for MatRef<'m> {
    fn as_image<'a>(&'a self, format: PixelFormat) -> (r: Result<ImageRef<'a>, Error>) {
        proof {
            use_type_invariant(self);
        }
        to_image_raw(self.data_bytes(), self.rows(), self.cols(), format, Ghost(self@))
    }

    fn to_image(&self, format: PixelFormat) -> (r: Result<ImageBuf, Error>) {
        match self.as_image(format) {
            Ok(view) => Ok(view.to_owned_buf()),
            Err(e) => Err(e),
        }
    }
}

/// The round trip law: converting a well-formed buffer to a matrix and
/// that matrix back to a buffer under the buffer's own format reproduces
/// the original width, height and bytes exactly. The image direction's
/// length check always passes on such a matrix.
pub proof fn lemma_round_trip(img: SpecImage)
    requires
        image_wf(img),
    ensures
        mat_wf(mat_of(img)),
        image_len_ok(mat_of(img), img.format),
        image_of(mat_of(img), img.format) == img,
{
    let w: int = img.width;
    let h: int = img.height;
    let c: int = img.format.spec_channels() as int;
    assert(w * h * c == h * w * c) by (nonlinear_arith);
}

} // verus!
