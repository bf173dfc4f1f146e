//! The image buffer the conversion layer works on.
//!
//! A buffer is a width, a height, a pixel format and the backing subpixel
//! bytes in row-major order; its storage holds exactly
//! `width * height * channels` bytes. `ImageRef` borrows its bytes from
//! somewhere else, `ImageBuf` owns them.

use vstd::prelude::*;

use crate::format::PixelFormat;

verus! {

/// The mathematical value of an image buffer.
pub struct SpecImage {
    pub width: int,
    pub height: int,
    pub format: PixelFormat,
    pub data: Seq<u8>,
}

/// A buffer is well formed when its dimensions are non-negative and its
/// storage holds exactly one byte per subpixel: `width * height * channels`
/// in all.
pub open spec fn image_wf(img: SpecImage) -> bool {
    &&& 0 <= img.width
    &&& 0 <= img.height
    &&& img.data.len() == img.width * img.height * img.format.spec_channels()
}

/// An image buffer view borrowing its bytes.
#[derive(Debug)]
pub struct ImageRef<'a> {
    width: u32,
    height: u32,
    format: PixelFormat,
    data: &'a [u8],
}

/// An image buffer owning its bytes.
#[derive(Debug)]
pub struct ImageBuf {
    width: u32,
    height: u32,
    format: PixelFormat,
    data: Vec<u8>,
}

impl<'a> View for ImageRef<'a> {
    type V = SpecImage;

    closed spec fn view(&self) -> SpecImage {
        SpecImage {
            width: self.width as int,
            height: self.height as int,
            format: self.format,
            data: self.data@,
        }
    }
}

impl View for ImageBuf {
    type V = SpecImage;

    closed spec fn view(&self) -> SpecImage {
        SpecImage {
            width: self.width as int,
            height: self.height as int,
            format: self.format,
            data: self.data@,
        }
    }
}

/// Whether `len` is exactly the storage size of a `width` by `height`
/// buffer of `format` pixels.
pub open spec fn raw_len_ok(width: u32, height: u32, format: PixelFormat, len: nat) -> bool {
    len == width * height * format.spec_channels()
}

/// Executable form of the storage-size check behind `raw_len_ok`.
fn check_raw_len(width: u32, height: u32, format: PixelFormat, len: usize) -> (ok: bool)
    ensures
        ok == raw_len_ok(width, height, format, len as nat),
{
    let channels = format.channels();
    proof {
        assert(0 <= (width as int) * (height as int) <= 0xffffffff * 0xffffffff)
            by (nonlinear_arith)
            requires
                0 <= width <= 0xffffffff,
                0 <= height <= 0xffffffff,
        ;
        assert(0 <= (width as int) * (height as int) * (channels as int) <= 0xffffffff * 0xffffffff
            * 0xff) by (nonlinear_arith)
            requires
                0 <= (width as int) * (height as int) <= 0xffffffff * 0xffffffff,
                0 <= channels <= 0xff,
        ;
    }
    let total: u128 = (width as u128) * (height as u128) * (channels as u128);
    (len as u128) == total
}

impl<'a> ImageRef<'a> {
    /// The type invariant: every buffer view this crate hands out is well
    /// formed.
    #[verifier::type_invariant]
    pub open spec fn wf(self) -> bool {
        image_wf(self@)
    }

    /// Builds a borrowed buffer over `data`, returning `None` when `data`
    /// does not hold exactly `width * height * channels` bytes.
    pub fn from_raw(width: u32, height: u32, format: PixelFormat, data: &'a [u8]) -> (r: Option<
        ImageRef<'a>,
    >)
        ensures
            match r {
                Some(img) => img@ == (SpecImage {
                    width: width as int,
                    height: height as int,
                    format,
                    data: data@,
                }) && image_wf(img@),
                None => !raw_len_ok(width, height, format, data@.len()),
            },
            r is Some <==> raw_len_ok(width, height, format, data@.len()),
    {
        if check_raw_len(width, height, format, data.len()) {
            Some(ImageRef { width, height, format, data })
        } else {
            None
        }
    }

    /// The width in pixels.
    pub fn width(&self) -> (w: u32)
        ensures
            w == self@.width,
    {
        self.width
    }

    /// The height in pixels.
    pub fn height(&self) -> (h: u32)
        ensures
            h == self@.height,
    {
        self.height
    }

    /// The width and height in pixels.
    pub fn dimensions(&self) -> (d: (u32, u32))
        ensures
            d.0 == self@.width,
            d.1 == self@.height,
    {
        (self.width, self.height)
    }

    /// The pixel format.
    pub fn format(&self) -> (f: PixelFormat)
        ensures
            f == self@.format,
    {
        self.format
    }

    /// The backing subpixel bytes.
    pub fn as_raw(&self) -> (d: &'a [u8])
        ensures
            d@ == self@.data,
    {
        self.data
    }

    /// Duplicates the viewed bytes into an owned buffer.
    pub fn to_owned_buf(&self) -> (r: ImageBuf)
        ensures
            r@ == self@,
    {
        proof {
            use_type_invariant(self);
        }
        ImageBuf {
            width: self.width,
            height: self.height,
            format: self.format,
            data: vstd::slice::slice_to_vec(self.data),
        }
    }
}

impl ImageBuf {
    /// The type invariant: every owned buffer this crate hands out is
    /// well formed.
    #[verifier::type_invariant]
    pub open spec fn wf(self) -> bool {
        image_wf(self@)
    }

    /// Builds an owned buffer from raw bytes, returning `None` when `data`
    /// does not hold exactly `width * height * channels` bytes.
    pub fn from_raw(width: u32, height: u32, format: PixelFormat, data: Vec<u8>) -> (r: Option<
        ImageBuf,
    >)
        ensures
            match r {
                Some(img) => img@ == (SpecImage {
                    width: width as int,
                    height: height as int,
                    format,
                    data: data@,
                }) && image_wf(img@),
                None => !raw_len_ok(width, height, format, data@.len()),
            },
            r is Some <==> raw_len_ok(width, height, format, data@.len()),
    {
        if check_raw_len(width, height, format, data.len()) {
            Some(ImageBuf { width, height, format, data })
        } else {
            None
        }
    }

    /// The width in pixels.
    pub fn width(&self) -> (w: u32)
        ensures
            w == self@.width,
    {
        self.width
    }

    /// The height in pixels.
    pub fn height(&self) -> (h: u32)
        ensures
            h == self@.height,
    {
        self.height
    }

    /// The width and height in pixels.
    pub fn dimensions(&self) -> (d: (u32, u32))
        ensures
            d.0 == self@.width,
            d.1 == self@.height,
    {
        (self.width, self.height)
    }

    /// The pixel format.
    pub fn format(&self) -> (f: PixelFormat)
        ensures
            f == self@.format,
    {
        self.format
    }

    /// The backing subpixel bytes.
    pub fn as_raw(&self) -> (d: &[u8])
        ensures
            d@ == self@.data,
    {
        self.data.as_slice()
    }

    /// Overwrites the byte at `index`, leaving everything else unchanged.
    pub fn put_byte(&mut self, index: usize, value: u8)
        requires
            index < old(self)@.data.len(),
        ensures
            final(self)@ == (SpecImage { data: old(self)@.data.update(index as int, value), ..old(
                self,
            )@ }),
    {
        proof {
            use_type_invariant(&*self);
        }
        *vstd::std_specs::vec::vec_index_mut(&mut self.data, index) = value;
    }
}

} // verus!
