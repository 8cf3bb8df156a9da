use vstd::prelude::*;

use crate::blend::BlendWeight;
use crate::blend::blend_buffers;
use crate::blend::spec_blend;
use crate::codec::decode_and_resize;
use crate::codec::decoded_rgba;
use crate::error::ImageError;
use crate::pixel::PixelBuffer;
use crate::pixel::dims_ok;
use crate::pixel::lemma_mul_le;
use crate::pixel::plane_area;
use crate::tensor::pack;
use crate::tensor::spec_pack;
use crate::tensor::spec_unpack;
use crate::tensor::tensor_shape_ok;
use crate::tensor::tensor_to_image;
use vstd::slice::slice_to_vec;

verus! {

/// Where the "original" pixels of a compositing call come from: encoded
/// bytes that are decoded and resampled to the target dimensions, or an
/// already-raw RGBA frame that must match them exactly. Both entry points
/// of postprocessing funnel through this value, so the blending step is
/// single-sourced.
pub enum OriginalSource<'a> {
    FromEncodedBytes(&'a [u8]),
    FromRawBuffer(&'a [u8]),
}

/// The original pixel samples an `OriginalSource` resolves to, or the
/// error the resolution reports: a decode failure for unparseable bytes,
/// a shape mismatch for a raw frame of the wrong length.
pub open spec fn spec_original_pixels<'a>(
    source: OriginalSource<'a>,
    width: u32,
    height: u32,
) -> Result<Seq<u8>, ImageError> {
    match source {
        OriginalSource::FromEncodedBytes(bytes) => match decoded_rgba(bytes@, width, height) {
            Option::Some(rgba) => Result::Ok(rgba),
            Option::None => Result::Err(ImageError::Decode),
        },
        OriginalSource::FromRawBuffer(raw) => if raw@.len() == 4 * plane_area(width, height) {
            Result::Ok(raw@)
        } else {
            Result::Err(ImageError::Shape)
        },
    }
}

/// What preprocessing returns: a shape mismatch for unacceptable target
/// dimensions, a decode failure for unparseable bytes, and otherwise the
/// planar tensor packed from the decoded, resampled pixels.
pub open spec fn spec_preprocess(bytes: Seq<u8>, width: u32, height: u32) -> Result<
    Seq<u8>,
    ImageError,
> {
    if !dims_ok(width, height) {
        Result::Err(ImageError::Shape)
    } else {
        match decoded_rgba(bytes, width, height) {
            Option::Some(rgba) => Result::Ok(spec_pack(rgba, width, height)),
            Option::None => Result::Err(ImageError::Decode),
        }
    }
}

/// Decodes an encoded image, resamples it to exactly
/// `target_width x target_height`, drops the alpha channel and packs the
/// colour samples into the planar tensor the model consumes.
pub fn preprocess_image(image_bytes: &[u8], target_width: u32, target_height: u32) -> (r: Result<
    Vec<u8>,
    ImageError,
>)
    ensures
        r is Ok <==> spec_preprocess(image_bytes@, target_width, target_height) is Ok,
        r is Ok ==> ({
            &&& r.unwrap()@ == spec_preprocess(image_bytes@, target_width, target_height).unwrap()
            &&& r.unwrap()@.len() == 3 * plane_area(target_width, target_height)
        }),
        r is Err ==> spec_preprocess(image_bytes@, target_width, target_height) is Err
            && r.unwrap_err() == spec_preprocess(
            image_bytes@,
            target_width,
            target_height,
        )->Err_0,
{
    if !check_dims(target_width, target_height) {
        return Err(ImageError::Shape);
    }
    match decode_and_resize(image_bytes, target_width, target_height) {
        Err(_) => Err(ImageError::Decode),
        Ok(rgba) => {
            let buffer = PixelBuffer { width: target_width, height: target_height, data: rgba };
            Ok(pack(&buffer))
        },
    }
}

/// Decides `dims_ok` at run time: both dimensions positive and the RGBA
/// buffer they describe addressable.
fn check_dims(width: u32, height: u32) -> (ok: bool)
    ensures
        ok == dims_ok(width, height),
{
    if width == 0 || height == 0 {
        return false;
    }
    proof {
        lemma_mul_le(width as int, height as int, u32::MAX as int, u32::MAX as int);
    }
    let area64: u64 = (width as u64) * (height as u64);
    let quarter: u64 = (usize::MAX as u64) / 4;
    if area64 > quarter {
        proof {
            assert(4 * (usize::MAX as int / 4) + usize::MAX as int % 4 == usize::MAX as int);
        }
        false
    } else {
        true
    }
}

/// Unpacks a stylized output tensor, obtains the original pixels from
/// `source`, and blends the two buffers at the given strength. The single
/// compositing path behind both postprocessing entry points.
pub fn composite<'a>(
    output_tensor: &Vec<u8>,
    source: OriginalSource<'a>,
    width: u32,
    height: u32,
    strength: BlendWeight,
) -> (r: Result<Vec<u8>, ImageError>)
    requires
        strength.wf(),
    ensures
        !tensor_shape_ok(width, height, output_tensor@.len()) ==> r is Err && r.unwrap_err()
            == ImageError::Shape,
        tensor_shape_ok(width, height, output_tensor@.len()) ==> match spec_original_pixels(
            source,
            width,
            height,
        ) {
            Result::Ok(orig) => r is Ok && r.unwrap()@ == spec_blend(
                orig,
                spec_unpack(output_tensor@, width, height),
                strength.num_spec(),
                strength.den_spec(),
            ) && r.unwrap()@.len() == 4 * plane_area(width, height),
            Result::Err(e) => r is Err && r.unwrap_err() == e,
        },
{
    let stylized = match tensor_to_image(output_tensor, width, height) {
        Ok(buffer) => buffer,
        Err(e) => {
            return Err(e);
        },
    };
    let original: Vec<u8> = match source {
        OriginalSource::FromEncodedBytes(bytes) => match decode_and_resize(bytes, width, height) {
            Ok(rgba) => rgba,
            Err(_) => {
                return Err(ImageError::Decode);
            },
        },
        OriginalSource::FromRawBuffer(raw) => {
            let area_us: usize = stylized.data.len() / 4;
            if raw.len() != 4 * area_us {
                return Err(ImageError::Shape);
            }
            slice_to_vec(raw)
        },
    };
    let out = blend_buffers(original.as_slice(), stylized.data.as_slice(), strength);
    Ok(out)
}

/// Unpacks a stylized output tensor, decodes and resamples the original
/// image bytes to the same dimensions, and blends the two pixel buffers
/// at the given strength into the final RGBA output.
pub fn postprocess_image(
    output_tensor: Vec<u8>,
    original_image_bytes: &[u8],
    width: u32,
    height: u32,
    strength: BlendWeight,
) -> (r: Result<Vec<u8>, ImageError>)
    requires
        strength.wf(),
    ensures
        !tensor_shape_ok(width, height, output_tensor@.len()) ==> r is Err && r.unwrap_err()
            == ImageError::Shape,
        tensor_shape_ok(width, height, output_tensor@.len()) && decoded_rgba(
            original_image_bytes@,
            width,
            height,
        ) is None ==> r is Err && r.unwrap_err() == ImageError::Decode,
        tensor_shape_ok(width, height, output_tensor@.len()) && decoded_rgba(
            original_image_bytes@,
            width,
            height,
        ) is Some ==> r is Ok && r.unwrap()@ == spec_blend(
            decoded_rgba(original_image_bytes@, width, height).unwrap(),
            spec_unpack(output_tensor@, width, height),
            strength.num_spec(),
            strength.den_spec(),
        ) && r.unwrap()@.len() == 4 * plane_area(width, height),
{
    composite(
        &output_tensor,
        OriginalSource::FromEncodedBytes(original_image_bytes),
        width,
        height,
        strength,
    )
}

/// Unpacks a stylized output tensor, wraps an already-raw RGBA frame of
/// the same dimensions, and blends the two pixel buffers at the given
/// strength. The frame must hold exactly four samples per pixel.
pub fn postprocess_video_frame(
    output_tensor: Vec<u8>,
    original_frame_pixels: &[u8],
    width: u32,
    height: u32,
    strength: BlendWeight,
) -> (r: Result<Vec<u8>, ImageError>)
    requires
        strength.wf(),
    ensures
        !tensor_shape_ok(width, height, output_tensor@.len()) ==> r is Err && r.unwrap_err()
            == ImageError::Shape,
        tensor_shape_ok(width, height, output_tensor@.len()) && original_frame_pixels@.len() != 4
            * plane_area(width, height) ==> r is Err && r.unwrap_err() == ImageError::Shape,
        tensor_shape_ok(width, height, output_tensor@.len()) && original_frame_pixels@.len() == 4
            * plane_area(width, height) ==> r is Ok && r.unwrap()@ == spec_blend(
            original_frame_pixels@,
            spec_unpack(output_tensor@, width, height),
            strength.num_spec(),
            strength.den_spec(),
        ) && r.unwrap()@.len() == 4 * plane_area(width, height),
{
    composite(
        &output_tensor,
        OriginalSource::FromRawBuffer(original_frame_pixels),
        width,
        height,
        strength,
    )
}

/// Law: preprocessing is deterministic. Two preprocessing results of the
/// same encoded bytes and the same target dimensions are equal, tensor for
/// tensor and error for error.
pub proof fn lemma_preprocess_deterministic(
    bytes: Seq<u8>,
    width: u32,
    height: u32,
    first: Result<Seq<u8>, ImageError>,
    second: Result<Seq<u8>, ImageError>,
)
    requires
        first == spec_preprocess(bytes, width, height),
        second == spec_preprocess(bytes, width, height),
    ensures
        first == second,
{
}

} // verus!
