//! The closed registry of supported pixel formats and their matrix element
//! descriptors.
//!
//! Every supported format is an 8-bit-per-channel format with a statically
//! known channel count. The mapping from a format to its descriptor is a
//! total function of this module, and `lemma_descriptor_matches_format`
//! proves once and for all that the descriptor's channel count equals the
//! format's, which is what makes the byte-level reinterpretation between
//! buffers and matrices sound.

use vstd::prelude::*;

verus! {

/// The element depth tag the external matrix library uses for unsigned
/// 8-bit subpixels.
pub const DEPTH_U8: i32 = 0;

/// A supported pixel format: an 8-bit subpixel and a fixed channel count.
#[derive(Clone, Copy, Debug, PartialEq, Eq, Structural)]
pub enum PixelFormat {
    /// One luminance channel.
    Luma8,
    /// Luminance and alpha.
    LumaA8,
    /// Red, green, blue.
    Rgb8,
    /// Red, green, blue, alpha.
    Rgba8,
}

/// A matrix element descriptor: the depth tag and the channel count the
/// external matrix library needs to interpret one stored element. An
/// element occupies exactly `channels` bytes, with no padding.
#[derive(Clone, Copy, Debug, PartialEq, Eq, Structural)]
pub struct MatElem {
    /// The subpixel depth tag; always `DEPTH_U8` for elements this crate
    /// produces.
    pub depth: i32,
    /// How many subpixels one element holds.
    pub channels: i32,
}

impl PixelFormat {
    /// How many bytes one pixel of this format occupies.
    pub open spec fn spec_channels(self) -> u8 {
        match self {
            PixelFormat::Luma8 => 1,
            PixelFormat::LumaA8 => 2,
            PixelFormat::Rgb8 => 3,
            PixelFormat::Rgba8 => 4,
        }
    }

    /// Executable channel count of this format.
    pub fn channels(self) -> (c: u8)
        ensures
            c == self.spec_channels(),
    {
        match self {
            PixelFormat::Luma8 => 1,
            PixelFormat::LumaA8 => 2,
            PixelFormat::Rgb8 => 3,
            PixelFormat::Rgba8 => 4,
        }
    }

    /// The matrix element descriptor this format maps to.
    pub open spec fn spec_mat_elem(self) -> MatElem {
        MatElem { depth: DEPTH_U8, channels: self.spec_channels() as i32 }
    }

    /// Executable mapping from a pixel format to its matrix element
    /// descriptor.
    pub fn mat_elem(self) -> (e: MatElem)
        ensures
            e == self.spec_mat_elem(),
    {
        MatElem { depth: DEPTH_U8, channels: self.channels() as i32 }
    }
}

/// A descriptor is valid when its depth is the 8-bit tag and it holds at
/// least one channel; only then does `channels` give the element's byte
/// width.
pub open spec fn elem_wf(e: MatElem) -> bool {
    e.depth == DEPTH_U8 && 1 <= e.channels
}

/// The registry law: every supported pixel format maps to exactly one
/// valid matrix element descriptor, and the descriptor's channel count
/// equals the format's channel count.
pub proof fn lemma_descriptor_matches_format(f: PixelFormat)
    ensures
        elem_wf(f.spec_mat_elem()),
        f.spec_mat_elem().channels == f.spec_channels() as int,
        f.spec_mat_elem().depth == DEPTH_U8,
{
}

} // verus!
