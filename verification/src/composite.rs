use vstd::prelude::*;
use crate::params::HeatmapParams;
use crate::pixel::Rgba;

verus! {

/// Overlay opacity for a pixel's low-contrast neighbor count, on the two-tier
/// scale: `round(255 * 0.02 * count)` above 25 neighbors, `round(255 * 0.0052
/// * count)` at or below, clamped to `[0, 255]`. A count of 0 is fully
/// transparent.
pub open spec fn alpha_of(count: int) -> int {
    if count <= 0 {
        0
    } else {
        let v = if count > 25 {
            (51 * count + 5) / 10
        } else {
            (1326 * count + 500) / 1000
        };
        if v > 255 {
            255
        } else {
            v
        }
    }
}

/// Compute the overlay opacity for one pixel's neighbor count.
pub fn alpha_for_count(count: u64) -> (a: u8)
    ensures
        a == alpha_of(count as int),
{
    if count == 0 {
        0
    } else if count > 25 {
        if count >= 50 {
            255
        } else {
            ((51 * count + 5) / 10) as u8
        }
    } else {
        ((1326 * count + 500) / 1000) as u8
    }
}

/// One channel of an alpha blend of the heat color over the base color:
/// `round(base*(1 - a) + heat*a)` with `a = alpha/255`, written as an exact
/// rounded division.
pub open spec fn blend_channel_of(base: u8, heat: u8, alpha: u8) -> int {
    (2 * ((base as int) * (255 - alpha) + (heat as int) * (alpha as int)) + 255) / 510
}

/// Blend one channel of the heat color over the base color at the given
/// opacity.
pub fn blend_channel(base: u8, heat: u8, alpha: u8) -> (out: u8)
    ensures
        out == blend_channel_of(base, heat, alpha),
{
    let b: u32 = base as u32;
    let h: u32 = heat as u32;
    let a: u32 = alpha as u32;
    proof {
        assert(0 <= (b as int) * (255 - a) + (h as int) * (a as int) <= 255 * 255)
            by (nonlinear_arith)
            requires
                b <= 255,
                h <= 255,
                a <= 255,
        ;
    }
    ((2 * (b * (255 - a) + h * a) + 255) / 510) as u8
}

/// The final value of one output pixel, given its original value and its
/// low-contrast neighbor count: untouched when the count or the resulting
/// opacity is 0, otherwise the heat color blended over it in RGB with the
/// original alpha channel preserved.
pub open spec fn composite_pixel_of(orig: Rgba, params: HeatmapParams, count: int) -> Rgba {
    if count == 0 {
        orig
    } else {
        let a = alpha_of(count);
        if a == 0 {
            orig
        } else {
            Rgba {
                r: blend_channel_of(orig.r, params.heat_r, a as u8) as u8,
                g: blend_channel_of(orig.g, params.heat_g, a as u8) as u8,
                b: blend_channel_of(orig.b, params.heat_b, a as u8) as u8,
                a: orig.a,
            }
        }
    }
}

/// Apply the overlay to one pixel.
pub fn composite_pixel(orig: Rgba, params: &HeatmapParams, count: u64) -> (out: Rgba)
    ensures
        out == composite_pixel_of(orig, *params, count as int),
{
    if count == 0 {
        return orig;
    }
    let alpha = alpha_for_count(count);
    if alpha == 0 {
        return orig;
    }
    Rgba {
        r: blend_channel(orig.r, params.heat_r, alpha),
        g: blend_channel(orig.g, params.heat_g, alpha),
        b: blend_channel(orig.b, params.heat_b, alpha),
        a: orig.a,
    }
}

/// A blend never leaves the 8-bit channel range.
pub proof fn lemma_blend_channel_bounds(base: u8, heat: u8, alpha: u8)
    ensures
        0 <= blend_channel_of(base, heat, alpha) <= 255,
{
    assert(0 <= (base as int) * (255 - alpha) + (heat as int) * (alpha as int) <= 255 * 255)
        by (nonlinear_arith);
}

} // verus!
