//! Fixed-point BT.601 conversion from packed 4:2:2 luma/chroma buffers
//! (YUY2: two luma samples and one shared chroma pair per four source
//! bytes) to packed RGB, three bytes per pixel.

use vstd::prelude::*;

verus! {

/// Clamp an integer channel value into the byte range 0..=255.
pub open spec fn clamp_byte(v: int) -> int {
    if v < 0 {
        0
    } else if v > 255 {
        255
    } else {
        v
    }
}

/// Red channel of one decoded pixel: BT.601 coefficients scaled by 1024.
pub open spec fn red_of(y: int, v: int) -> int {
    clamp_byte((1192 * (y - 16) + 1634 * (v - 128)) / 1024)
}

/// Green channel of one decoded pixel.
pub open spec fn green_of(y: int, u: int, v: int) -> int {
    clamp_byte((1192 * (y - 16) - 401 * (u - 128) - 833 * (v - 128)) / 1024)
}

/// Blue channel of one decoded pixel.
pub open spec fn blue_of(y: int, u: int) -> int {
    clamp_byte((1192 * (y - 16) + 2066 * (u - 128)) / 1024)
}

/// The six RGB bytes at pair `p` of `out` decode the four source bytes
/// at pair `p` of `src`.
pub open spec fn pair_decoded(src: Seq<u8>, out: Seq<u8>, p: int) -> bool {
    let y0 = src[4 * p] as int;
    let u = src[4 * p + 1] as int;
    let y1 = src[4 * p + 2] as int;
    let v = src[4 * p + 3] as int;
    &&& out[6 * p] as int == red_of(y0, v)
    &&& out[6 * p + 1] as int == green_of(y0, u, v)
    &&& out[6 * p + 2] as int == blue_of(y0, u)
    &&& out[6 * p + 3] as int == red_of(y1, v)
    &&& out[6 * p + 4] as int == green_of(y1, u, v)
    &&& out[6 * p + 5] as int == blue_of(y1, u)
}

/// Shift a fixed-point channel value down by the coefficient scale of
/// 1024 and clamp it into the byte range.
fn scale_channel(v: i32) -> (r: u8)
    ensures
        r as int == clamp_byte(v as int / 1024),
{
    if v < 0 {
        proof {
            assert(v as int / 1024 < 0) by {
                assert(v as int == 1024 * (v as int / 1024) + (v as int % 1024));
            }
        }
        0
    } else {
        let q: u32 = (v as u32) / 1024;
        if q > 255 {
            255
        } else {
            q as u8
        }
    }
}

/// Decode a packed 4:2:2 buffer of even width into packed RGB, three
/// bytes per pixel, using the scaled-integer BT.601 approximation.
/// Every group of four source bytes `(y0, u, y1, v)` yields two RGB
/// pixels.
pub fn yuy2_to_rgb_naive(width: usize, height: usize, src: &[u8]) -> (out: Vec<u8>)
    requires
        width % 2 == 0,
        src@.len() >= width * height * 2,
        width * height * 3 <= usize::MAX,
    ensures
        out@.len() == width * height * 3,
        forall|p: int| 0 <= p < width * height / 2 ==> #[trigger] pair_decoded(src@, out@, p),
{
    proof {
        let k = width as int / 2;
        assert(width as int == 2 * k);
        assert(width * height == 2 * (k * height)) by (nonlinear_arith)
            requires
                width as int == 2 * k,
        ;
        assert((width * height) % 2 == 0);
    }
    let total: usize = width * height;
    let n_pairs: usize = total / 2;
    let mut out: Vec<u8> = Vec::new();
    let mut i: usize = 0;
    while i < n_pairs
        invariant
            i <= n_pairs,
            total == width * height,
            n_pairs == total / 2,
            total % 2 == 0,
            total * 3 <= usize::MAX,
            src@.len() >= total * 2,
            out@.len() == 6 * i,
            forall|p: int| 0 <= p < i ==> #[trigger] pair_decoded(src@, out@, p),
        decreases n_pairs - i,
    {
        proof {
            assert(total == 2 * n_pairs);
            assert(4 * i + 3 < src@.len());
        }
        let y0: i32 = src[4 * i] as i32;
        let u: i32 = src[4 * i + 1] as i32;
        let y1: i32 = src[4 * i + 2] as i32;
        let v: i32 = src[4 * i + 3] as i32;

        let c0: i32 = y0 - 16;
        let c1: i32 = y1 - 16;
        let d: i32 = u - 128;
        let e: i32 = v - 128;

        let ghost prev = out@;
        out.push(scale_channel(1192 * c0 + 1634 * e));
        out.push(scale_channel(1192 * c0 - 401 * d - 833 * e));
        out.push(scale_channel(1192 * c0 + 2066 * d));
        out.push(scale_channel(1192 * c1 + 1634 * e));
        out.push(scale_channel(1192 * c1 - 401 * d - 833 * e));
        out.push(scale_channel(1192 * c1 + 2066 * d));

        proof {
            assert(out@.len() == prev.len() + 6);
            assert(forall|j: int| 0 <= j < prev.len() ==> out@[j] == prev[j]);
            assert(pair_decoded(src@, out@, i as int));
            assert forall|p: int| 0 <= p < i + 1 implies #[trigger] pair_decoded(src@, out@, p) by {
                if p < i {
                    assert(pair_decoded(src@, prev, p));
                }
            }
        }
        i = i + 1;
    }
    proof {
        assert(total == 2 * n_pairs);
    }
    out
}

/// On a uniform gray source pair, where both chroma samples sit at
/// their 128 midpoint, the three channels of each decoded pixel are
/// exactly equal: the chroma terms vanish and red, green and blue all
/// reduce to the same scaled luma value.
pub proof fn lemma_uniform_gray(y: int)
    ensures
        red_of(y, 128) == green_of(y, 128, 128),
        green_of(y, 128, 128) == blue_of(y, 128),
{
}

} // verus!
