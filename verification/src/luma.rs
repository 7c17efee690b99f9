use vstd::prelude::*;
use crate::srgb::{srgb_linear_of, srgb_to_linear_u8};

verus! {

/// Scale of the fixed-point luminance values: a relative luminance of 1.0
/// maps to `LUMA_SCALE` (the sRGB scale times the sum of the WCAG weights).
pub const LUMA_SCALE: u64 = 10000000000;

/// The WCAG flare term 0.05, in luminance units.
pub const LUMA_FLARE: u64 = 500000000;

/// WCAG relative luminance of an 8-bit sRGB color, in luminance units:
/// `0.2126*R + 0.7152*G + 0.0722*B` over the decoded linear-light channels.
/// Pure black maps to 0 and pure white to exactly `LUMA_SCALE`.
pub open spec fn luminance_of(r: u8, g: u8, b: u8) -> int {
    2126 * srgb_linear_of(r) + 7152 * srgb_linear_of(g) + 722 * srgb_linear_of(b)
}

/// Every luminance value is a fraction of full scale.
pub proof fn lemma_luminance_bounds(r: u8, g: u8, b: u8)
    ensures
        0 <= luminance_of(r, g, b) <= LUMA_SCALE,
{
    crate::srgb::lemma_srgb_linear_bounds(r);
    crate::srgb::lemma_srgb_linear_bounds(g);
    crate::srgb::lemma_srgb_linear_bounds(b);
}

/// Compute the fixed-point WCAG relative luminance of one pixel's color.
pub fn luminance_rgb(r: u8, g: u8, b: u8) -> (l: u64)
    ensures
        l == luminance_of(r, g, b),
        l <= LUMA_SCALE,
{
    proof {
        crate::srgb::lemma_srgb_linear_bounds(r);
        crate::srgb::lemma_srgb_linear_bounds(g);
        crate::srgb::lemma_srgb_linear_bounds(b);
    }
    let rr = srgb_to_linear_u8(r) as u64;
    let gg = srgb_to_linear_u8(g) as u64;
    let bb = srgb_to_linear_u8(b) as u64;
    2126 * rr + 7152 * gg + 722 * bb
}

/// Numerator and denominator of the WCAG contrast ratio of two luminances:
/// `(L_max + 0.05) / (L_min + 0.05)`, both parts in luminance units.
pub open spec fn contrast_parts(l1: u64, l2: u64) -> (int, int) {
    let hi = if l1 >= l2 { l1 } else { l2 };
    let lo = if l1 >= l2 { l2 } else { l1 };
    (hi + LUMA_FLARE, lo + LUMA_FLARE)
}

/// Whether the contrast ratio of two luminances is at most `t_milli/1000`:
/// `(L_max + 0.05) * 1000 <= (t_milli) * (L_min + 0.05)`.
pub open spec fn contrast_le(l1: u64, l2: u64, t_milli: u32) -> bool {
    let hi = if l1 >= l2 { l1 } else { l2 };
    let lo = if l1 >= l2 { l2 } else { l1 };
    1000 * (hi + LUMA_FLARE) <= (t_milli as int) * (lo + LUMA_FLARE)
}

/// The WCAG contrast ratio of two luminances, as an exact fraction
/// (numerator, denominator) in luminance units.
pub fn contrast_ratio_from_luma(l1: u64, l2: u64) -> (r: (u64, u64))
    requires
        l1 <= LUMA_SCALE,
        l2 <= LUMA_SCALE,
    ensures
        (r.0 as int, r.1 as int) == contrast_parts(l1, l2),
{
    if l1 >= l2 {
        (l1 + LUMA_FLARE, l2 + LUMA_FLARE)
    } else {
        (l2 + LUMA_FLARE, l1 + LUMA_FLARE)
    }
}

/// Decide whether the contrast ratio of two luminances is at or below the
/// threshold `t_milli/1000`.
pub fn contrast_ratio_le(l1: u64, l2: u64, t_milli: u32) -> (r: bool)
    requires
        l1 <= LUMA_SCALE,
        l2 <= LUMA_SCALE,
    ensures
        r == contrast_le(l1, l2, t_milli),
{
    let hi: u64 = if l1 >= l2 { l1 } else { l2 };
    let lo: u64 = if l1 >= l2 { l2 } else { l1 };
    let hn: u128 = (hi + LUMA_FLARE) as u128;
    let ln: u128 = (lo + LUMA_FLARE) as u128;
    let tm: u128 = t_milli as u128;
    proof {
        assert((tm as int) * (ln as int) <= 0x100000000 * 0x300000000) by (nonlinear_arith)
            requires
                tm <= 0x100000000,
                ln <= 0x300000000,
        ;
    }
    1000u128 * hn <= tm * ln
}

/// The contrast ratio does not depend on the order of its two arguments,
/// neither as a fraction nor when compared against a threshold.
pub proof fn lemma_contrast_ratio_symmetric(l1: u64, l2: u64, t_milli: u32)
    ensures
        contrast_parts(l1, l2) == contrast_parts(l2, l1),
        contrast_le(l1, l2, t_milli) == contrast_le(l2, l1, t_milli),
{
}

/// The contrast ratio of a luminance against itself is exactly 1 (equal
/// numerator and denominator); the scanner never evaluates this case, since
/// it skips neighbors of equal luminance before comparing.
pub proof fn lemma_contrast_ratio_reflexive(l: u64)
    ensures
        contrast_parts(l, l).0 == contrast_parts(l, l).1,
{
}

} // verus!
