//! Mapping of grayscale intensities onto an ordered glyph ramp.
use vstd::prelude::*;

use crate::frame::printable_ramp;

verus! {

/// The glyph ramp, ordered from sparsest to densest.
pub const GLYPH_RAMP: &'static str = "     .'`^\",:;Il!i><~+_-?][}{1)(|\\/tfjrxnuvczXYUJCLQ0OZmwqpdbkhao*#MW&8%B@$";

/// The glyph ramp, `GLYPH_RAMP`: 74 printable ASCII glyphs, sparsest first.
pub fn glyph_ramp() -> (r: &'static str)
    ensures
        r@ == GLYPH_RAMP@,
        r@.len() == 74,
        printable_ramp(r@),
{
    proof {
        reveal_strlit("     .'`^\",:;Il!i><~+_-?][}{1)(|\\/tfjrxnuvczXYUJCLQ0OZmwqpdbkhao*#MW&8%B@$");
    }
    GLYPH_RAMP
}

/// The largest grayscale intensity.
pub const INTENSITY_MAX: i32 = 255;

/// An intensity forced into `[0, 255]`.
pub open spec fn clamp_intensity(i: int) -> int {
    if i < 0 {
        0
    } else if i > 255 {
        255
    } else {
        i
    }
}

/// Linear scale of an intensity in `[0, 255]` onto the indices `[0, n - 1]`
/// of a ramp of length `n`, rounding down.
pub open spec fn glyph_index(i: int, n: int) -> int {
    (clamp_intensity(i) * (n - 1)) / 255
}

/// Index into a ramp of `ramp_len` glyphs for the intensity `intensity`.
/// Out-of-range intensities are clamped to `[0, 255]` first.
pub fn map_intensity(intensity: i32, ramp_len: usize) -> (r: usize)
    requires
        ramp_len >= 2,
        ramp_len as int * 255 <= usize::MAX,
    ensures
        r == glyph_index(intensity as int, ramp_len as int),
        0 <= r < ramp_len,
        clamp_intensity(intensity as int) == 0 ==> r == 0,
        clamp_intensity(intensity as int) == 255 ==> r == ramp_len - 1,
{
    let c: usize = if intensity < 0 {
        0
    } else if intensity > INTENSITY_MAX {
        255
    } else {
        intensity as usize
    };
    proof {
        let n = ramp_len as int;
        assert(0 <= c * (n - 1) <= 255 * (n - 1)) by (nonlinear_arith)
            requires
                0 <= c <= 255,
                n >= 2,
        ;
        lemma_glyph_index_in_range(intensity as int, n);
    }
    let r = c * (ramp_len - 1) / 255;
    r
}

/// The index lies in `[0, n - 1]`, is `0` for the darkest and `n - 1` for the
/// brightest intensity.
pub proof fn lemma_glyph_index_in_range(i: int, n: int)
    requires
        n >= 2,
    ensures
        0 <= glyph_index(i, n) <= n - 1,
        clamp_intensity(i) == 0 ==> glyph_index(i, n) == 0,
        clamp_intensity(i) == 255 ==> glyph_index(i, n) == n - 1,
{
    let c = clamp_intensity(i);
    assert(0 <= c * (n - 1) <= 255 * (n - 1)) by (nonlinear_arith)
        requires
            0 <= c <= 255,
            n >= 2,
    ;
    assert((c * (n - 1)) / 255 <= n - 1) by (nonlinear_arith)
        requires
            0 <= c * (n - 1) <= 255 * (n - 1),
            n >= 2,
    ;
    assert(0 <= (c * (n - 1)) / 255) by (nonlinear_arith)
        requires
            0 <= c * (n - 1),
    ;
    if c == 255 {
        assert((255 * (n - 1)) / 255 == n - 1) by (nonlinear_arith);
    }
}

/// The glyph index is monotonic: a brighter intensity never maps to a sparser
/// glyph.
pub proof fn lemma_glyph_index_monotonic(i: int, j: int, n: int)
    requires
        n >= 2,
        i <= j,
    ensures
        glyph_index(i, n) <= glyph_index(j, n),
{
    let a = clamp_intensity(i);
    let b = clamp_intensity(j);
    assert(a <= b);
    assert(a * (n - 1) <= b * (n - 1)) by (nonlinear_arith)
        requires
            a <= b,
            n >= 2,
    ;
    assert((a * (n - 1)) / 255 <= (b * (n - 1)) / 255) by (nonlinear_arith)
        requires
            a * (n - 1) <= b * (n - 1),
    ;
}

} // verus!
