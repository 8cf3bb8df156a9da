use vstd::prelude::*;

use crate::pixel::Rgba;
use crate::pixel::lemma_mul_le;
use vstd::arithmetic::div_mod::lemma_fundamental_div_mod_converse;

verus! {

/// The interpolation factor between an original and a stylized pixel,
/// held exactly as the ratio `num / den` with `den >= 1`.
///
/// `0 / 1` keeps the original, `1 / 1` takes the stylized pixel, and a
/// ratio above one extrapolates past it; every blended sample saturates
/// into the 8-bit range. The host converts whatever scalar strength it
/// receives into such a ratio.
#[derive(Clone, Copy, Debug, PartialEq, Eq, Structural)]
pub struct BlendWeight {
    pub num: u32,
    pub den: u32,
}

impl BlendWeight {
    /// A weight is well formed when its denominator is positive.
    pub open spec fn wf(self) -> bool {
        self.den >= 1
    }

    /// The numerator of the ratio.
    pub open spec fn num_spec(self) -> int {
        self.num as int
    }

    /// The denominator of the ratio.
    pub open spec fn den_spec(self) -> int {
        self.den as int
    }

    /// Builds the weight `num / den`; a zero denominator is rejected.
    pub fn new(num: u32, den: u32) -> (r: Option<BlendWeight>)
        ensures
            r is Some <==> den >= 1,
            r is Some ==> ({
                &&& r.unwrap().wf()
                &&& r.unwrap().num_spec() == num
                &&& r.unwrap().den_spec() == den
            }),
    {
        if den >= 1 {
            Some(BlendWeight { num, den })
        } else {
            None
        }
    }

    /// The weight that keeps the original pixel untouched.
    pub fn zero() -> (r: BlendWeight)
        ensures
            r.wf(),
            r.num_spec() == 0,
            r.den_spec() == 1,
    {
        BlendWeight { num: 0, den: 1 }
    }

    /// The weight that replaces the original pixel by the stylized one.
    pub fn one() -> (r: BlendWeight)
        ensures
            r.wf(),
            r.num_spec() == 1,
            r.den_spec() == 1,
    {
        BlendWeight { num: 1, den: 1 }
    }
}

/// One blended 8-bit sample: the linear interpolation
/// `original * (1 - w) + stylized * w` at the weight `w == num / den`,
/// written over integers as `(original * (den - num) + stylized * num) / den`,
/// rounded to the nearest integer and saturated into `[0, 255]`.
pub open spec fn blend_channel_spec(original: int, stylized: int, num: int, den: int) -> int {
    let t = original * den + (stylized - original) * num;
    if t <= 0 {
        0
    } else {
        let q = (t + den / 2) / den;
        if q >= 255 {
            255
        } else {
            q
        }
    }
}

/// Blends one channel sample of an original and a stylized pixel.
pub fn blend_channel(original: u8, stylized: u8, strength: BlendWeight) -> (r: u8)
    requires
        strength.wf(),
    ensures
        r as int == blend_channel_spec(
            original as int,
            stylized as int,
            strength.num_spec(),
            strength.den_spec(),
        ),
{
    let o: u64 = original as u64;
    let s: u64 = stylized as u64;
    let n: u64 = strength.num as u64;
    let d: u64 = strength.den as u64;
    proof {
        lemma_mul_le(o as int, d as int, 255, u32::MAX as int);
    }
    let base: u64 = o * d;
    let q: u64 = if s >= o {
        proof {
            lemma_mul_le((s - o) as int, n as int, 255, u32::MAX as int);
        }
        let t: u64 = base + (s - o) * n;
        if t == 0 {
            // The interpolated value is zero.
            proof {
                vstd::arithmetic::div_mod::lemma_basic_div(d as int / 2, d as int);
            }
        }
        (t + d / 2) / d
    } else {
        proof {
            lemma_mul_le((o - s) as int, n as int, 255, u32::MAX as int);
            lemma_neg_mul((o - s) as int, n as int);
        }
        let away: u64 = (o - s) * n;
        if away >= base {
            // The interpolated value is at or below zero and saturates.
            return 0;
        }
        let t: u64 = base - away;
        (t + d / 2) / d
    };
    if q >= 255 {
        255
    } else {
        q as u8
    }
}

/// Blends an original and a stylized pixel channel by channel.
///
/// Each colour channel is interpolated per `blend_channel_spec`; the alpha
/// sample of the result is always 255, fully opaque.
pub fn blend_pixels(original: Rgba, stylized: Rgba, strength: BlendWeight) -> (r: Rgba)
    requires
        strength.wf(),
    ensures
        r.r as int == blend_channel_spec(
            original.r as int, stylized.r as int, strength.num_spec(), strength.den_spec()),
        r.g as int == blend_channel_spec(
            original.g as int, stylized.g as int, strength.num_spec(), strength.den_spec()),
        r.b as int == blend_channel_spec(
            original.b as int, stylized.b as int, strength.num_spec(), strength.den_spec()),
        r.a == 255,
{
    Rgba {
        r: blend_channel(original.r, stylized.r, strength),
        g: blend_channel(original.g, stylized.g, strength),
        b: blend_channel(original.b, stylized.b, strength),
        a: 255,
    }
}

/// Negating one factor negates the product.
proof fn lemma_neg_mul(a: int, b: int)
    by (nonlinear_arith)
    ensures
        (-a) * b == -(a * b),
{
}

/// Every blended sample lies in the 8-bit range.
pub proof fn lemma_blend_channel_bounds(original: int, stylized: int, num: int, den: int)
    requires
        1 <= den,
    ensures
        0 <= blend_channel_spec(original, stylized, num, den) <= 255,
{
    let t = original * den + (stylized - original) * num;
    if t > 0 {
        let q = (t + den / 2) / den;
        assert(q >= 0) by (nonlinear_arith)
            requires t > 0, den >= 1, q == (t + den / 2) / den;
    }
}

/// Law: blending with the zero weight returns the original sample, and
/// blending with the unit weight returns the stylized sample, for every
/// 8-bit pair of samples and every positive denominator.
pub proof fn lemma_blend_channel_boundary(original: int, stylized: int, den: int)
    requires
        0 <= original <= 255,
        0 <= stylized <= 255,
        1 <= den,
    ensures
        blend_channel_spec(original, stylized, 0, den) == original,
        blend_channel_spec(original, stylized, den, den) == stylized,
{
    lemma_exact_multiple_rounds_back(original, den);
    assert(original * den + (stylized - original) * den == stylized * den) by (nonlinear_arith);
    lemma_exact_multiple_rounds_back(stylized, den);
}

/// Rounding `v * den / den` gives back `v`, and the product is positive
/// exactly when `v` is.
proof fn lemma_exact_multiple_rounds_back(v: int, den: int)
    requires
        0 <= v <= 255,
        1 <= den,
    ensures
        v >= 1 ==> v * den > 0,
        v * den <= 0 ==> v == 0,
        (v * den + den / 2) / den == v,
{
    assert(v >= 1 ==> v * den >= 1) by (nonlinear_arith)
        requires 1 <= den;
    assert(v * den >= 0) by (nonlinear_arith)
        requires 0 <= v, 1 <= den;
    lemma_fundamental_div_mod_converse(v * den + den / 2, den, v, den / 2);
}

/// A whole blended RGBA buffer: colour samples interpolated position by
/// position per `blend_channel_spec`, every fourth (alpha) sample 255.
pub open spec fn spec_blend(original: Seq<u8>, stylized: Seq<u8>, num: int, den: int) -> Seq<u8> {
    Seq::new(
        original.len(),
        |j: int| if j % 4 == 3 {
            255u8
        } else {
            blend_channel_spec(original[j] as int, stylized[j] as int, num, den) as u8
        },
    )
}

/// Blends an original RGBA buffer with a stylized one of the same length,
/// sample by sample, forcing every alpha sample of the result to 255.
pub fn blend_buffers(original: &[u8], stylized: &[u8], strength: BlendWeight) -> (out: Vec<u8>)
    requires
        original@.len() == stylized@.len(),
        strength.wf(),
    ensures
        out@.len() == original@.len(),
        out@ == spec_blend(original@, stylized@, strength.num_spec(), strength.den_spec()),
{
    let len: usize = original.len();
    let mut out: Vec<u8> = Vec::new();
    let mut j: usize = 0;
    while j < len
        invariant
            len == original@.len(),
            original@.len() == stylized@.len(),
            strength.wf(),
            j <= len,
            out@.len() == j,
            forall|i: int|
                0 <= i < j ==> out@[i] == spec_blend(
                    original@,
                    stylized@,
                    strength.num_spec(),
                    strength.den_spec(),
                )[i],
        decreases len - j,
    {
        if j % 4 == 3 {
            out.push(255);
        } else {
            let v = blend_channel(original[j], stylized[j], strength);
            proof {
                lemma_blend_channel_bounds(
                    original@[j as int] as int,
                    stylized@[j as int] as int,
                    strength.num_spec(),
                    strength.den_spec(),
                );
            }
            out.push(v);
        }
        j = j + 1;
    }
    proof {
        assert(out@ =~= spec_blend(
            original@, stylized@, strength.num_spec(), strength.den_spec()));
    }
    out
}

/// A buffer with every colour sample kept and every alpha sample forced
/// to 255, fully opaque.
pub open spec fn force_opaque(buffer: Seq<u8>) -> Seq<u8> {
    Seq::new(
        buffer.len(),
        |j: int| if j % 4 == 3 {
            255u8
        } else {
            buffer[j]
        },
    )
}

/// Law: blending whole buffers at the boundary weights is exact — the
/// zero weight returns the original buffer and the unit weight returns
/// the stylized buffer, each with its alpha samples forced to 255.
pub proof fn lemma_blend_buffer_boundary(
    original: Seq<u8>,
    stylized: Seq<u8>,
    strength: BlendWeight,
)
    requires
        original.len() == stylized.len(),
        strength.wf(),
    ensures
        strength.num_spec() == 0 ==> spec_blend(
            original,
            stylized,
            strength.num_spec(),
            strength.den_spec(),
        ) == force_opaque(original),
        strength.num_spec() == strength.den_spec() ==> spec_blend(
            original,
            stylized,
            strength.num_spec(),
            strength.den_spec(),
        ) == force_opaque(stylized),
{
    let num = strength.num_spec();
    let den = strength.den_spec();
    let out = spec_blend(original, stylized, num, den);
    if num == 0 {
        assert forall|j: int| 0 <= j < original.len() implies out[j] == force_opaque(original)[j] by {
            if j % 4 != 3 {
                lemma_blend_channel_boundary(original[j] as int, stylized[j] as int, den);
            }
        }
        assert(out =~= force_opaque(original));
    }
    if num == den {
        assert forall|j: int| 0 <= j < stylized.len() implies out[j] == force_opaque(stylized)[j] by {
            if j % 4 != 3 {
                lemma_blend_channel_boundary(original[j] as int, stylized[j] as int, den);
            }
        }
        assert(out =~= force_opaque(stylized));
    }
}

/// Law: blending two whole pixels with the zero weight keeps every colour
/// channel of the original, and blending with the unit weight takes every
/// colour channel of the stylized pixel; the alpha channel is forced to 255
/// in both cases (stated by `blend_pixels`' contract).
pub proof fn lemma_blend_pixel_boundary(original: Rgba, stylized: Rgba, strength: BlendWeight)
    requires
        strength.wf(),
    ensures
        strength.num_spec() == 0 ==> ({
            &&& blend_channel_spec(original.r as int, stylized.r as int,
                    strength.num_spec(), strength.den_spec()) == original.r
            &&& blend_channel_spec(original.g as int, stylized.g as int,
                    strength.num_spec(), strength.den_spec()) == original.g
            &&& blend_channel_spec(original.b as int, stylized.b as int,
                    strength.num_spec(), strength.den_spec()) == original.b
        }),
        strength.num_spec() == strength.den_spec() ==> ({
            &&& blend_channel_spec(original.r as int, stylized.r as int,
                    strength.num_spec(), strength.den_spec()) == stylized.r
            &&& blend_channel_spec(original.g as int, stylized.g as int,
                    strength.num_spec(), strength.den_spec()) == stylized.g
            &&& blend_channel_spec(original.b as int, stylized.b as int,
                    strength.num_spec(), strength.den_spec()) == stylized.b
        }),
{
    lemma_blend_channel_boundary(original.r as int, stylized.r as int, strength.den_spec());
    lemma_blend_channel_boundary(original.g as int, stylized.g as int, strength.den_spec());
    lemma_blend_channel_boundary(original.b as int, stylized.b as int, strength.den_spec());
}

} // verus!
