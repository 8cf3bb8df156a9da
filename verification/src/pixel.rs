use vstd::prelude::*;

use crate::error::ImageError;

verus! {

/// One pixel: an ordered 4-tuple of 8-bit samples (red, green, blue, alpha).
#[derive(Clone, Copy, Debug, PartialEq, Eq, Structural)]
pub struct Rgba {
    pub r: u8,
    pub g: u8,
    pub b: u8,
    pub a: u8,
}

/// The number of pixels in a `width x height` grid.
pub open spec fn plane_area(width: u32, height: u32) -> int {
    (width as int) * (height as int)
}

/// Dimensions a conversion call accepts: both sides positive, and small
/// enough that a buffer of four samples per pixel can be addressed.
pub open spec fn dims_ok(width: u32, height: u32) -> bool {
    &&& width >= 1
    &&& height >= 1
    &&& 4 * plane_area(width, height) <= usize::MAX
}

/// A `width x height` grid of pixels, row-major with the origin at the top
/// left, stored as a flat byte buffer of four samples (R, G, B, A) per pixel.
#[derive(Debug)]
pub struct PixelBuffer {
    pub width: u32,
    pub height: u32,
    pub data: Vec<u8>,
}

impl PixelBuffer {
    /// A buffer is well formed when it holds exactly four samples per pixel.
    pub open spec fn wf(self) -> bool {
        self.data@.len() == 4 * plane_area(self.width, self.height)
    }

    /// Wraps an already-raw RGBA byte buffer of known dimensions.
    ///
    /// The buffer must hold exactly `width * height` pixels of four samples
    /// each; any other length is a shape mismatch, reported to the caller
    /// and never truncated or padded.
    pub fn from_raw(width: u32, height: u32, data: Vec<u8>) -> (r: Result<PixelBuffer, ImageError>)
        ensures
            r is Ok <==> data@.len() == 4 * plane_area(width, height),
            r is Ok ==> ({
                &&& r.unwrap().width == width
                &&& r.unwrap().height == height
                &&& r.unwrap().data@ == data@
                &&& r.unwrap().wf()
            }),
            r is Err ==> r.unwrap_err() == ImageError::Shape,
    {
        proof {
            lemma_mul_le(width as int, height as int, u32::MAX as int, u32::MAX as int);
        }
        let area64: u64 = (width as u64) * (height as u64);
        let len64: u64 = data.len() as u64;
        if area64 > u64::MAX / 4 {
            // No addressable byte buffer can hold four samples for each of
            // that many pixels, so the length cannot match.
            return Err(ImageError::Shape);
        }
        let need: u64 = 4 * area64;
        if len64 != need {
            return Err(ImageError::Shape);
        }
        Ok(PixelBuffer { width, height, data })
    }
}

/// The product of two values is bounded by the product of their bounds.
pub proof fn lemma_mul_le(a: int, b: int, x: int, y: int)
    by (nonlinear_arith)
    requires
        0 <= a <= x,
        0 <= b <= y,
    ensures
        a * b <= x * y,
{
}

} // verus!
