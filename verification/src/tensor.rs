use vstd::prelude::*;

use crate::error::ImageError;
use crate::pixel::PixelBuffer;
use crate::pixel::dims_ok;
use crate::pixel::lemma_mul_le;
use crate::pixel::plane_area;
use vstd::arithmetic::div_mod::lemma_fundamental_div_mod;
use vstd::arithmetic::div_mod::lemma_fundamental_div_mod_converse;

verus! {

/// The planar tensor a pixel grid packs into: one sample plane per colour
/// channel, red first, then green, then blue, each plane `width * height`
/// samples in row-major pixel order. Position `i` of the tensor holds the
/// sample of channel `i / (width * height)` of pixel `i % (width * height)`.
pub open spec fn spec_pack(rgba: Seq<u8>, width: u32, height: u32) -> Seq<u8> {
    let area = plane_area(width, height);
    Seq::new((3 * area) as nat, |i: int| rgba[4 * (i % area) + i / area])
}

/// The pixel grid a planar tensor unpacks into: four samples per pixel,
/// each colour sample read from its plane, and every alpha sample 255.
pub open spec fn spec_unpack(tensor: Seq<u8>, width: u32, height: u32) -> Seq<u8> {
    let area = plane_area(width, height);
    Seq::new(
        (4 * area) as nat,
        |j: int| if j % 4 == 3 {
            255u8
        } else {
            tensor[(j % 4) * area + j / 4]
        },
    )
}

/// A tensor fits a `width x height` conversion when the dimensions are
/// themselves acceptable and it holds exactly three samples per pixel.
pub open spec fn tensor_shape_ok(width: u32, height: u32, len: nat) -> bool {
    &&& dims_ok(width, height)
    &&& len == 3 * plane_area(width, height)
}

/// Packs a pixel grid into its planar tensor, dropping the alpha channel.
pub fn pack(buffer: &PixelBuffer) -> (t: Vec<u8>)
    requires
        buffer.wf(),
    ensures
        t@.len() == 3 * plane_area(buffer.width, buffer.height),
        t@ == spec_pack(buffer.data@, buffer.width, buffer.height),
{
    let ghost area = plane_area(buffer.width, buffer.height);
    let len_us: usize = buffer.data.len();
    let area_us: usize = len_us / 4;
    let mut t: Vec<u8> = Vec::new();
    let mut c: usize = 0;
    while c < 3
        invariant
            buffer.wf(),
            area == plane_area(buffer.width, buffer.height),
            area_us == area,
            4 * area <= usize::MAX,
            c <= 3,
            t@.len() == c * area,
            forall|i: int| 0 <= i < t@.len() ==> t@[i] == spec_pack(buffer.data@, buffer.width, buffer.height)[i],
        decreases 3 - c,
    {
        let mut p: usize = 0;
        while p < area_us
            invariant
                buffer.wf(),
                area == plane_area(buffer.width, buffer.height),
                area_us == area,
                4 * area <= usize::MAX,
                c < 3,
                p <= area_us,
                t@.len() == c * area + p,
                forall|i: int| 0 <= i < t@.len() ==> t@[i] == spec_pack(buffer.data@, buffer.width, buffer.height)[i],
            decreases area_us - p,
        {
            let sample = buffer.data[4 * p + c];
            proof {
                lemma_fundamental_div_mod_converse(
                    (c * area + p) as int, area, c as int, p as int);
            }
            t.push(sample);
            p = p + 1;
        }
        proof {
            assert((c + 1) * area == c * area + area) by (nonlinear_arith);
        }
        c = c + 1;
    }
    proof {
        assert(t@ =~= spec_pack(buffer.data@, buffer.width, buffer.height));
    }
    t
}

/// Unpacks a planar tensor into a pixel grid with every alpha sample 255.
///
/// A tensor whose length is not exactly three samples per pixel of the
/// stated dimensions is rejected with a shape mismatch, never silently
/// truncated or padded; so are dimensions with a zero side.
pub fn tensor_to_image(tensor: &Vec<u8>, width: u32, height: u32) -> (r: Result<
    PixelBuffer,
    ImageError,
>)
    ensures
        r is Ok <==> tensor_shape_ok(width, height, tensor@.len()),
        r is Ok ==> ({
            &&& r.unwrap().width == width
            &&& r.unwrap().height == height
            &&& r.unwrap().wf()
            &&& r.unwrap().data@ == spec_unpack(tensor@, width, height)
        }),
        r is Err ==> r.unwrap_err() == ImageError::Shape,
{
    if width == 0 || height == 0 {
        return Err(ImageError::Shape);
    }
    proof {
        lemma_mul_le(width as int, height as int, u32::MAX as int, u32::MAX as int);
    }
    let area64: u64 = (width as u64) * (height as u64);
    let len64: u64 = tensor.len() as u64;
    if area64 > (usize::MAX as u64) / 4 {
        return Err(ImageError::Shape);
    }
    if len64 != 3 * area64 {
        return Err(ImageError::Shape);
    }
    let area_us: usize = tensor.len() / 3;
    let ghost area = plane_area(width, height);
    let mut out: Vec<u8> = Vec::new();
    let mut p: usize = 0;
    while p < area_us
        invariant
            area == plane_area(width, height),
            area_us == area,
            tensor@.len() == 3 * area,
            4 * area <= usize::MAX,
            p <= area_us,
            out@.len() == 4 * p,
            forall|j: int| 0 <= j < out@.len() ==> out@[j] == spec_unpack(tensor@, width, height)[j],
        decreases area_us - p,
    {
        let r = tensor[p];
        let g = tensor[area_us + p];
        let b = tensor[2 * area_us + p];
        proof {
            lemma_fundamental_div_mod_converse((4 * p) as int, 4, p as int, 0);
            lemma_fundamental_div_mod_converse((4 * p + 1) as int, 4, p as int, 1);
            lemma_fundamental_div_mod_converse((4 * p + 2) as int, 4, p as int, 2);
            lemma_fundamental_div_mod_converse((4 * p + 3) as int, 4, p as int, 3);
        }
        out.push(r);
        out.push(g);
        out.push(b);
        out.push(255);
        proof {
            let u = spec_unpack(tensor@, width, height);
            assert(out@.len() == 4 * p + 4);
            assert(u[4 * p as int] == tensor@[p as int]);
            assert(u[4 * p + 1] == tensor@[area + p]);
            assert(u[4 * p + 2] == tensor@[2 * area + p]);
            assert(u[4 * p + 3] == 255);
            assert(out@[4 * p as int] == tensor@[p as int]);
            assert(out@[4 * p + 1] == tensor@[area + p]);
            assert(out@[4 * p + 2] == tensor@[2 * area + p]);
            assert(out@[4 * p + 3] == 255);
        }
        p = p + 1;
    }
    proof {
        assert(out@ =~= spec_unpack(tensor@, width, height));
    }
    Ok(PixelBuffer { width, height, data: out })
}

/// Law: unpacking a packed pixel grid gives the grid back exactly — every
/// colour sample is reproduced unchanged and every alpha sample is 255.
/// The tensor the grid packs into always has exactly three samples per
/// pixel, as `spec_pack` itself states.
pub proof fn lemma_pack_unpack_round_trip(rgba: Seq<u8>, width: u32, height: u32)
    requires
        rgba.len() == 4 * plane_area(width, height),
    ensures
        spec_unpack(spec_pack(rgba, width, height), width, height).len() == rgba.len(),
        forall|j: int|
            0 <= j < rgba.len() && j % 4 != 3 ==> spec_unpack(
                spec_pack(rgba, width, height),
                width,
                height,
            )[j] == rgba[j],
        forall|j: int|
            0 <= j < rgba.len() && j % 4 == 3 ==> spec_unpack(
                spec_pack(rgba, width, height),
                width,
                height,
            )[j] == 255,
{
    let area = plane_area(width, height);
    let t = spec_pack(rgba, width, height);
    let u = spec_unpack(t, width, height);
    assert forall|j: int| 0 <= j < rgba.len() && j % 4 != 3 implies u[j] == rgba[j] by {
        lemma_fundamental_div_mod(j, 4);
        let c = j % 4;
        let p = j / 4;
        assert(c * area <= 2 * area) by (nonlinear_arith)
            requires 0 <= c <= 2, 0 <= area;
        let i = c * area + p;
        lemma_fundamental_div_mod_converse(i, area, c, p);
        assert(t[i] == rgba[4 * p + c]);
    }
}

} // verus!
