use vstd::prelude::*;
use crate::pixel::{PixelBuffer, Rgba};

verus! {

/// Denominator of the fixed-point sharpening kernel: a weight of `w` stands
/// for `w / KERNEL_DENOM`.
pub const KERNEL_DENOM: i64 = 10000;

/// Center weight, 1.1636.
pub const KERNEL_CENTER: i64 = 11636;

/// Weight of each of the four orthogonal neighbors, -0.0432.
pub const KERNEL_ORTHO: i64 = -432;

/// Weight of each of the four diagonal neighbors, 0.0023.
pub const KERNEL_DIAG: i64 = 23;

/// The kernel coefficients sum to exactly 1.0, so a uniform neighborhood is
/// reproduced unchanged.
pub proof fn lemma_kernel_sums_to_one()
    ensures
        KERNEL_CENTER + 4 * KERNEL_ORTHO + 4 * KERNEL_DIAG == KERNEL_DENOM,
{
}

/// A coordinate clamped to `[0, hi]`.
pub open spec fn clamp_coord(v: int, hi: int) -> int {
    if v < 0 {
        0
    } else if v > hi {
        hi
    } else {
        v
    }
}

/// Channel `c` of a pixel: 0 is red, 1 is green, anything else blue.
pub open spec fn chan(p: Rgba, c: int) -> int {
    if c == 0 {
        p.r as int
    } else if c == 1 {
        p.g as int
    } else {
        p.b as int
    }
}

/// The pixel sampled at `(x, y)` with both coordinates clamped into bounds,
/// so edge pixels reuse their nearest valid neighbors.
pub open spec fn sample(img: PixelBuffer, x: int, y: int) -> Rgba {
    img.pixel_of(
        clamp_coord(x, img.width as int - 1),
        clamp_coord(y, img.height as int - 1),
    )
}

/// Kernel-weighted sum of channel `c` over the 3x3 neighborhood of `(x, y)`,
/// in units of `1/KERNEL_DENOM`.
pub open spec fn conv_acc(img: PixelBuffer, x: int, y: int, c: int) -> int {
    KERNEL_DIAG * chan(sample(img, x - 1, y - 1), c) + KERNEL_ORTHO * chan(
        sample(img, x, y - 1),
        c,
    ) + KERNEL_DIAG * chan(sample(img, x + 1, y - 1), c) + KERNEL_ORTHO * chan(
        sample(img, x - 1, y),
        c,
    ) + KERNEL_CENTER * chan(sample(img, x, y), c) + KERNEL_ORTHO * chan(
        sample(img, x + 1, y),
        c,
    ) + KERNEL_DIAG * chan(sample(img, x - 1, y + 1), c) + KERNEL_ORTHO * chan(
        sample(img, x, y + 1),
        c,
    ) + KERNEL_DIAG * chan(sample(img, x + 1, y + 1), c)
}

/// A weighted sum rounded to the nearest integer and clamped to the 8-bit
/// range.
pub open spec fn conv_clamp(acc: int) -> u8 {
    if acc <= 0 {
        0u8
    } else if (acc + 5000) / 10000 > 255 {
        255u8
    } else {
        ((acc + 5000) / 10000) as u8
    }
}

/// One pixel of the sharpened analysis image: each color channel is the
/// rounded, clamped kernel sum; the alpha channel is copied from the center.
pub open spec fn sharpened_pixel_of(img: PixelBuffer, x: int, y: int) -> Rgba {
    Rgba {
        r: conv_clamp(conv_acc(img, x, y, 0)),
        g: conv_clamp(conv_acc(img, x, y, 1)),
        b: conv_clamp(conv_acc(img, x, y, 2)),
        a: img.pixel_of(x, y).a,
    }
}

/// Clamp a possibly out-of-range coordinate to `[0, hi]`.
fn clamp_to(v: i64, hi: u32) -> (r: u32)
    ensures
        r == clamp_coord(v as int, hi as int),
{
    if v < 0 {
        0
    } else if v > hi as i64 {
        hi
    } else {
        v as u32
    }
}

/// Sample a pixel with clamped coordinates.
fn sample_px(img: &PixelBuffer, x: i64, y: i64) -> (p: Rgba)
    requires
        img.wf(),
        img.width >= 1,
        img.height >= 1,
    ensures
        p == sample(*img, x as int, y as int),
{
    let sx = clamp_to(x, img.width - 1);
    let sy = clamp_to(y, img.height - 1);
    img.get_pixel(sx, sy)
}

/// Round and clamp one accumulated channel sum.
fn conv_channel(acc: i64) -> (r: u8)
    requires
        -10000000 <= acc <= 10000000,
    ensures
        r == conv_clamp(acc as int),
{
    if acc <= 0 {
        0
    } else {
        let q = (acc + 5000) / 10000;
        if q > 255 {
            255
        } else {
            q as u8
        }
    }
}

/// Convolve the image with the fixed sharpening kernel, clamping sample
/// coordinates at the edges. The result has the same dimensions; each color
/// channel is the rounded, clamped kernel sum of its 3x3 neighborhood and
/// each alpha channel is copied from the center pixel.
pub fn convolve_3x3_clamp_edges(img: &PixelBuffer) -> (out: PixelBuffer)
    requires
        img.wf(),
    ensures
        out.wf(),
        out.width == img.width,
        out.height == img.height,
        forall|x: int, y: int|
            img.in_bounds(x, y) ==> out.pixel_of(x, y) == sharpened_pixel_of(*img, x, y),
{
    let mut out = img.duplicate();
    let w = img.width;
    let h = img.height;
    let mut y: u32 = 0;
    while y < h
        invariant
            img.wf(),
            out.wf(),
            out.width == w,
            out.height == h,
            w == img.width,
            h == img.height,
            y <= h,
            forall|xx: int, yy: int|
                img.in_bounds(xx, yy) ==> out.pixel_of(xx, yy) == (if yy < y {
                    sharpened_pixel_of(*img, xx, yy)
                } else {
                    img.pixel_of(xx, yy)
                }),
        decreases h - y,
    {
        let mut x: u32 = 0;
        while x < w
            invariant
                img.wf(),
                out.wf(),
                out.width == w,
                out.height == h,
                w == img.width,
                h == img.height,
                y < h,
                x <= w,
                forall|xx: int, yy: int|
                    img.in_bounds(xx, yy) ==> out.pixel_of(xx, yy) == (if yy < y || (yy == y && xx
                        < x) {
                        sharpened_pixel_of(*img, xx, yy)
                    } else {
                        img.pixel_of(xx, yy)
                    }),
            decreases w - x,
        {
            let xi = x as i64;
            let yi = y as i64;
            let p00 = sample_px(img, xi - 1, yi - 1);
            let p10 = sample_px(img, xi, yi - 1);
            let p20 = sample_px(img, xi + 1, yi - 1);
            let p01 = sample_px(img, xi - 1, yi);
            let p11 = sample_px(img, xi, yi);
            let p21 = sample_px(img, xi + 1, yi);
            let p02 = sample_px(img, xi - 1, yi + 1);
            let p12 = sample_px(img, xi, yi + 1);
            let p22 = sample_px(img, xi + 1, yi + 1);

            let acc_r: i64 = KERNEL_DIAG * (p00.r as i64) + KERNEL_ORTHO * (p10.r as i64)
                + KERNEL_DIAG * (p20.r as i64) + KERNEL_ORTHO * (p01.r as i64) + KERNEL_CENTER
                * (p11.r as i64) + KERNEL_ORTHO * (p21.r as i64) + KERNEL_DIAG * (p02.r as i64)
                + KERNEL_ORTHO * (p12.r as i64) + KERNEL_DIAG * (p22.r as i64);
            let acc_g: i64 = KERNEL_DIAG * (p00.g as i64) + KERNEL_ORTHO * (p10.g as i64)
                + KERNEL_DIAG * (p20.g as i64) + KERNEL_ORTHO * (p01.g as i64) + KERNEL_CENTER
                * (p11.g as i64) + KERNEL_ORTHO * (p21.g as i64) + KERNEL_DIAG * (p02.g as i64)
                + KERNEL_ORTHO * (p12.g as i64) + KERNEL_DIAG * (p22.g as i64);
            let acc_b: i64 = KERNEL_DIAG * (p00.b as i64) + KERNEL_ORTHO * (p10.b as i64)
                + KERNEL_DIAG * (p20.b as i64) + KERNEL_ORTHO * (p01.b as i64) + KERNEL_CENTER
                * (p11.b as i64) + KERNEL_ORTHO * (p21.b as i64) + KERNEL_DIAG * (p02.b as i64)
                + KERNEL_ORTHO * (p12.b as i64) + KERNEL_DIAG * (p22.b as i64);

            let a = img.get_pixel(x, y).a;
            let np = Rgba {
                r: conv_channel(acc_r),
                g: conv_channel(acc_g),
                b: conv_channel(acc_b),
                a,
            };
            proof {
                assert(np == sharpened_pixel_of(*img, x as int, y as int));
            }
            out.put_pixel(x, y, np);
            x = x + 1;
        }
        y = y + 1;
    }
    out
}

} // verus!
