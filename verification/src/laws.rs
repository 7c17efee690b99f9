use vstd::prelude::*;
use crate::luma::{contrast_le, luminance_of};
use crate::params::HeatmapParams;
use crate::pipeline::{analysis_luma_at, lemma_analysis_luma_at, overlay_count_of, overlay_pixel_of};
use crate::pixel::PixelBuffer;
use crate::scan::{
    equal_neighbors_at, lemma_count_at_saturated, lemma_count_at_zero, neighbor_counted,
    neighbor_in_bounds, window_neighbors_at,
};
use crate::sharpen::{chan, clamp_coord, conv_acc, conv_clamp, sample, sharpened_pixel_of};

verus! {

/// A pixel all of whose window neighbors are excluded from the scan — out of
/// bounds, or of exactly equal analysis luminance — has count 0, and its
/// output pixel equals its input pixel exactly, alpha channel included.
pub proof fn lemma_isolated_pixel_untouched(
    img: PixelBuffer,
    params: HeatmapParams,
    x: int,
    y: int,
)
    requires
        img.wf(),
        params.wf(),
        img.in_bounds(x, y),
        forall|nx: int, ny: int|
            img.in_bounds(nx, ny) && !(nx == x && ny == y) && x - params.radius <= nx <= x
                + params.radius && y - params.radius <= ny <= y + params.radius
                ==> #[trigger] analysis_luma_at(img, nx, ny) == analysis_luma_at(img, x, y),
    ensures
        overlay_count_of(img, params, x, y) == 0,
        overlay_pixel_of(img, params, x, y) == img.pixel_of(x, y),
{
    let luma = crate::pipeline::analysis_luma_seq(img);
    let w = img.width as int;
    let h = img.height as int;
    let r = params.radius as int;
    let t = params.threshold_milli;
    assert forall|dx: int, dy: int|
        -r <= dx <= r && -r <= dy <= r implies !(#[trigger] neighbor_counted(
        luma,
        w,
        h,
        x,
        y,
        t,
        x + dx,
        y + dy,
    )) by {
        let nx = x + dx;
        let ny = y + dy;
        if 0 <= nx < w && 0 <= ny < h && !(nx == x && ny == y) {
            assert(analysis_luma_at(img, nx, ny) == analysis_luma_at(img, x, y));
            assert(luma[ny * w + nx] == luma[y * w + x]);
        }
    }
    lemma_count_at_zero(luma, w, h, x, y, t, r);
}

/// Round-and-clamp reproduces a channel scaled by the full kernel weight.
proof fn lemma_conv_clamp_exact(cv: int)
    requires
        0 <= cv <= 255,
    ensures
        conv_clamp(10000 * cv) == cv,
{
    if cv > 0 {
        assert(10000 * cv + 5000 == cv * 10000 + 5000) by (nonlinear_arith);
        vstd::arithmetic::div_mod::lemma_fundamental_div_mod_converse(
            10000 * cv + 5000,
            10000,
            cv,
            5000,
        );
    }
}

/// Sharpening a uniform image reproduces every pixel: all nine samples are
/// equal, and the kernel coefficients sum to one.
proof fn lemma_sharpen_uniform(img: PixelBuffer, x: int, y: int)
    requires
        img.wf(),
        img.in_bounds(x, y),
        forall|xx: int, yy: int|
            img.in_bounds(xx, yy) ==> #[trigger] img.pixel_of(xx, yy) == img.pixel_of(0, 0),
    ensures
        sharpened_pixel_of(img, x, y) == img.pixel_of(x, y),
{
    let w = img.width as int;
    let h = img.height as int;
    let v = img.pixel_of(0, 0);
    assert forall|sx: int, sy: int|
        x - 1 <= sx <= x + 1 && y - 1 <= sy <= y + 1 implies #[trigger] sample(img, sx, sy)
        == v by {
        assert(img.in_bounds(clamp_coord(sx, w - 1), clamp_coord(sy, h - 1)));
    }
    assert(conv_acc(img, x, y, 0) == 10000 * chan(v, 0));
    assert(conv_acc(img, x, y, 1) == 10000 * chan(v, 1));
    assert(conv_acc(img, x, y, 2) == 10000 * chan(v, 2));
    lemma_conv_clamp_exact(chan(v, 0));
    lemma_conv_clamp_exact(chan(v, 1));
    lemma_conv_clamp_exact(chan(v, 2));
}

/// For a uniform-color image every neighbor's analysis luminance equals the
/// center's, so every pixel is skipped: all counts are 0 and the overlay
/// equals the input exactly.
pub proof fn lemma_uniform_image_unchanged(img: PixelBuffer, params: HeatmapParams)
    requires
        img.wf(),
        params.wf(),
        forall|xx: int, yy: int|
            img.in_bounds(xx, yy) ==> #[trigger] img.pixel_of(xx, yy) == img.pixel_of(0, 0),
    ensures
        forall|x: int, y: int|
            img.in_bounds(x, y) ==> #[trigger] overlay_count_of(img, params, x, y) == 0,
        forall|x: int, y: int|
            img.in_bounds(x, y) ==> #[trigger] overlay_pixel_of(img, params, x, y) == img.pixel_of(
                x,
                y,
            ),
{
    let v = img.pixel_of(0, 0);
    assert forall|x: int, y: int| img.in_bounds(x, y) implies #[trigger] analysis_luma_at(
        img,
        x,
        y,
    ) == (luminance_of(v.r, v.g, v.b) as u64) by {
        lemma_sharpen_uniform(img, x, y);
        lemma_analysis_luma_at(img, x, y);
    }
    assert forall|x: int, y: int| img.in_bounds(x, y) implies #[trigger] overlay_count_of(
        img,
        params,
        x,
        y,
    ) == 0 && overlay_pixel_of(img, params, x, y) == img.pixel_of(x, y) by {
        lemma_isolated_pixel_untouched(img, params, x, y);
    }
}

/// For a pixel whose every differing in-window neighbor sits at or below
/// the contrast threshold, the count is exactly its in-bounds window
/// neighbors minus those of exactly equal analysis luminance. On a
/// checkerboard interior at radius 1 this is the 8 in-bounds neighbors
/// minus the 4 equal-colored diagonals: 4.
pub proof fn lemma_saturated_window_count(
    img: PixelBuffer,
    params: HeatmapParams,
    x: int,
    y: int,
)
    requires
        img.wf(),
        params.wf(),
        img.in_bounds(x, y),
        forall|nx: int, ny: int|
            x - params.radius <= nx <= x + params.radius && y - params.radius <= ny <= y
                + params.radius && neighbor_in_bounds(
                img.width as int,
                img.height as int,
                x,
                y,
                nx,
                ny,
            ) && #[trigger] analysis_luma_at(img, nx, ny) != analysis_luma_at(img, x, y)
                ==> contrast_le(
                analysis_luma_at(img, x, y),
                analysis_luma_at(img, nx, ny),
                params.threshold_milli,
            ),
    ensures
        overlay_count_of(img, params, x, y) + equal_neighbors_at(
            crate::pipeline::analysis_luma_seq(img),
            img.width as int,
            img.height as int,
            x,
            y,
            params.radius as int,
        ) == window_neighbors_at(
            img.width as int,
            img.height as int,
            x,
            y,
            params.radius as int,
        ),
{
    let luma = crate::pipeline::analysis_luma_seq(img);
    let w = img.width as int;
    let h = img.height as int;
    let r = params.radius as int;
    let t = params.threshold_milli;
    assert forall|dx: int, dy: int|
        -r <= dx <= r && -r <= dy <= r && #[trigger] neighbor_in_bounds(w, h, x, y, x + dx, y + dy)
            && luma[(y + dy) * w + (x + dx)] != luma[y * w + x] implies contrast_le(
        luma[y * w + x],
        luma[(y + dy) * w + (x + dx)],
        t,
    ) by {
        let nx = x + dx;
        let ny = y + dy;
        assert(analysis_luma_at(img, nx, ny) == luma[ny * w + nx]);
        assert(analysis_luma_at(img, x, y) == luma[y * w + x]);
    }
    lemma_count_at_saturated(luma, w, h, x, y, t, r);
}

} // verus!
