use vstd::prelude::*;

use crate::error::ImageError;
use crate::pixel::dims_ok;
use crate::pixel::plane_area;

verus! {

/// What decoding a byte sequence and resampling it to `width x height`
/// yields: nothing when the bytes are not a parseable raster image, else
/// the flat RGBA samples of the resampled grid, row-major, four samples
/// per pixel. Decoding and resampling are functions of the bytes and the
/// target dimensions alone, so the samples are the same on every call
/// with the same arguments.
pub uninterp spec fn decoded_rgba(bytes: Seq<u8>, width: u32, height: u32) -> Option<Seq<u8>>;

/// Relies on `image::load_from_memory` (the container format is detected
/// from the byte header, PNG and JPEG among the supported ones; an error
/// for bytes that parse as no supported format), on
/// `DynamicImage::resize_exact` with the `Triangle` filter (a new image of
/// exactly the demanded dimensions, aspect ratio not preserved), and on
/// `DynamicImage::to_rgba8` with `ImageBuffer::into_raw` (the flat
/// row-major buffer of four samples per pixel). All three compute from
/// their arguments alone.
#[verifier::external_body]
pub(crate) fn decode_and_resize(bytes: &[u8], width: u32, height: u32) -> (r: Result<
    Vec<u8>,
    ImageError,
>)
    requires
        dims_ok(width, height),
    ensures
        r is Ok <==> decoded_rgba(bytes@, width, height) is Some,
        r is Ok ==> ({
            &&& r.unwrap()@ == decoded_rgba(bytes@, width, height).unwrap()
            &&& r.unwrap()@.len() == 4 * plane_area(width, height)
        }),
        r is Err ==> r.unwrap_err() == ImageError::Decode,
{
    match image::load_from_memory(bytes) {
        Ok(img) => Ok(
            img.resize_exact(width, height, image::imageops::FilterType::Triangle)
                .to_rgba8()
                .into_raw(),
        ),
        Err(_) => Err(ImageError::Decode),
    }
}

} // verus!
