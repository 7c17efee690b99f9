use vstd::prelude::*;
use crate::codec::{base64_encode, base64_of, decode_rgba, decoded_rgba, encode_png, png_encoding};
use crate::composite::{composite_pixel, composite_pixel_of};
use crate::errors::HeatmapError;
use crate::luma::luminance_of;
use crate::params::HeatmapParams;
use crate::pixel::{lemma_rm_index_bound, PixelBuffer, Rgba};
use crate::scan::{count_at, count_low_contrast_neighbors, luminance_field};
use crate::sharpen::{convolve_3x3_clamp_edges, sharpened_pixel_of};

verus! {

/// The luminance field of the sharpened analysis image, as a row-major
/// sequence of fixed-point values, one per pixel.
pub open spec fn analysis_luma_seq(img: PixelBuffer) -> Seq<u64> {
    Seq::new(
        ((img.width as int) * (img.height as int)) as nat,
        |i: int|
            {
                let x = i % (img.width as int);
                let y = i / (img.width as int);
                let p = sharpened_pixel_of(img, x, y);
                luminance_of(p.r, p.g, p.b) as u64
            },
    )
}

/// The analysis luminance of one pixel, read from the luminance field of
/// the sharpened image.
pub open spec fn analysis_luma_at(img: PixelBuffer, x: int, y: int) -> u64 {
    analysis_luma_seq(img)[y * (img.width as int) + x]
}

/// The analysis luminance of a pixel is the luminance of its sharpened
/// color.
pub proof fn lemma_analysis_luma_at(img: PixelBuffer, x: int, y: int)
    requires
        img.in_bounds(x, y),
    ensures
        analysis_luma_at(img, x, y) == (luminance_of(
            sharpened_pixel_of(img, x, y).r,
            sharpened_pixel_of(img, x, y).g,
            sharpened_pixel_of(img, x, y).b,
        ) as u64),
{
    let w = img.width as int;
    let h = img.height as int;
    lemma_rm_index_bound(w, h, x, y);
    vstd::arithmetic::div_mod::lemma_fundamental_div_mod_converse(y * w + x, w, y, x);
}

/// The low-contrast neighbor count of one pixel: the scan runs over the
/// luminance field of the sharpened image.
pub open spec fn overlay_count_of(img: PixelBuffer, params: HeatmapParams, x: int, y: int) -> nat {
    count_at(
        analysis_luma_seq(img),
        img.width as int,
        img.height as int,
        x,
        y,
        params.threshold_milli,
        params.radius as int,
    )
}

/// One pixel of the finished overlay: the heat color composited over the
/// original pixel according to its low-contrast neighbor count.
pub open spec fn overlay_pixel_of(img: PixelBuffer, params: HeatmapParams, x: int, y: int) -> Rgba {
    composite_pixel_of(img.pixel_of(x, y), params, overlay_count_of(img, params, x, y) as int)
}

/// Compute the heatmap overlay of an image: sharpen a copy for analysis,
/// compute its luminance field, count each pixel's low-contrast neighbors,
/// and blend the heat color onto the original pixels accordingly. The
/// original buffer is read only; the result is a fresh buffer of the same
/// dimensions.
pub fn produce_overlay(original: &PixelBuffer, params: &HeatmapParams) -> (out: PixelBuffer)
    requires
        original.wf(),
        params.wf(),
    ensures
        out.wf(),
        out.width == original.width,
        out.height == original.height,
        forall|x: int, y: int|
            original.in_bounds(x, y) ==> out.pixel_of(x, y) == overlay_pixel_of(
                *original,
                *params,
                x,
                y,
            ),
        out.data@ == overlay_bytes_of(*original, *params),
{
    let w = original.width;
    let h = original.height;
    let sharp = convolve_3x3_clamp_edges(original);
    let field = luminance_field(&sharp);
    proof {
        assert forall|i: int| 0 <= i < field@.len() implies field@[i] == analysis_luma_seq(
            *original,
        )[i] by {
            assert(field@.len() == (w as int) * (h as int));
            assert((w as int) > 0) by (nonlinear_arith)
                requires
                    0 <= i < (w as int) * (h as int),
            ;
            vstd::arithmetic::div_mod::lemma_fundamental_div_mod(i, w as int);
            vstd::arithmetic::div_mod::lemma_mod_pos_bound(i, w as int);
            let x = i % (w as int);
            let y = i / (w as int);
            assert(0 <= y < h) by (nonlinear_arith)
                requires
                    i == (w as int) * y + x,
                    0 <= x < w,
                    0 <= i < (w as int) * (h as int),
            ;
            assert(y * (w as int) + x == i) by (nonlinear_arith)
                requires
                    i == (w as int) * y + x,
            ;
            assert(sharp.in_bounds(x, y));
            assert(sharp.pixel_of(x, y) == sharpened_pixel_of(*original, x, y));
            let p = sharpened_pixel_of(*original, x, y);
            crate::luma::lemma_luminance_bounds(p.r, p.g, p.b);
            assert(field@[y * (w as int) + x] == luminance_of(
                sharp.pixel_of(x, y).r,
                sharp.pixel_of(x, y).g,
                sharp.pixel_of(x, y).b,
            ));
            assert(field@[i] == luminance_of(p.r, p.g, p.b));
            assert(analysis_luma_seq(*original)[i] == (luminance_of(p.r, p.g, p.b) as u64));
        }
        assert(field@ =~= analysis_luma_seq(*original));
    }
    let mut out = original.duplicate();
    let mut y: u32 = 0;
    while y < h
        invariant
            original.wf(),
            params.wf(),
            w == original.width,
            h == original.height,
            field@ == analysis_luma_seq(*original),
            field@.len() == (w as int) * (h as int),
            forall|i: int| 0 <= i < field@.len() ==> field@[i] <= crate::luma::LUMA_SCALE,
            out.wf(),
            out.width == w,
            out.height == h,
            y <= h,
            forall|xx: int, yy: int|
                original.in_bounds(xx, yy) ==> out.pixel_of(xx, yy) == (if yy < y {
                    overlay_pixel_of(*original, *params, xx, yy)
                } else {
                    original.pixel_of(xx, yy)
                }),
        decreases h - y,
    {
        let mut x: u32 = 0;
        while x < w
            invariant
                original.wf(),
                params.wf(),
                w == original.width,
                h == original.height,
                field@ == analysis_luma_seq(*original),
                field@.len() == (w as int) * (h as int),
                forall|i: int| 0 <= i < field@.len() ==> field@[i] <= crate::luma::LUMA_SCALE,
                out.wf(),
                out.width == w,
                out.height == h,
                y < h,
                x <= w,
                forall|xx: int, yy: int|
                    original.in_bounds(xx, yy) ==> out.pixel_of(xx, yy) == (if yy < y || (yy == y
                        && xx < x) {
                        overlay_pixel_of(*original, *params, xx, yy)
                    } else {
                        original.pixel_of(xx, yy)
                    }),
            decreases w - x,
        {
            let count = count_low_contrast_neighbors(
                &field,
                w,
                h,
                x,
                y,
                params.radius,
                params.threshold_milli,
            );
            let base = original.get_pixel(x, y);
            let np = composite_pixel(base, params, count);
            proof {
                assert(np == overlay_pixel_of(*original, *params, x as int, y as int));
            }
            out.put_pixel(x, y, np);
            x = x + 1;
        }
        y = y + 1;
    }
    proof {
        lemma_overlay_data(*original, *params, out);
    }
    out
}

/// The finished overlay of an image as raw row-major RGBA bytes.
pub open spec fn overlay_bytes_of(img: PixelBuffer, params: HeatmapParams) -> Seq<u8> {
    Seq::new(
        (4 * ((img.width as int) * (img.height as int))) as nat,
        |i: int|
            {
                let px = i / 4;
                let x = px % (img.width as int);
                let y = px / (img.width as int);
                let p = overlay_pixel_of(img, params, x, y);
                let c = i % 4;
                if c == 0 {
                    p.r
                } else if c == 1 {
                    p.g
                } else if c == 2 {
                    p.b
                } else {
                    p.a
                }
            },
    )
}

/// Decompose a byte position of a row-major RGBA buffer into its pixel
/// coordinates and channel.
proof fn lemma_byte_decompose(w: int, h: int, i: int)
    requires
        0 <= i < 4 * (w * h),
        w >= 0,
        h >= 0,
    ensures
        ({
            let px = i / 4;
            let c = i % 4;
            let x = px % w;
            let y = px / w;
            &&& 0 <= c < 4
            &&& 0 <= x < w
            &&& 0 <= y < h
            &&& px == y * w + x
            &&& i == 4 * (y * w + x) + c
        }),
{
    vstd::arithmetic::div_mod::lemma_fundamental_div_mod(i, 4);
    vstd::arithmetic::div_mod::lemma_mod_pos_bound(i, 4);
    let px = i / 4;
    let c = i % 4;
    assert(0 <= px < w * h);
    assert(w > 0) by (nonlinear_arith)
        requires
            0 <= px < w * h,
            h >= 0,
    ;
    vstd::arithmetic::div_mod::lemma_fundamental_div_mod(px, w);
    vstd::arithmetic::div_mod::lemma_mod_pos_bound(px, w);
    let x = px % w;
    let y = px / w;
    assert(0 <= y < h && y * w + x == px) by (nonlinear_arith)
        requires
            px == w * y + x,
            0 <= x < w,
            0 <= px < w * h,
    ;
}

/// A well-formed overlay buffer holds exactly the overlay bytes of its
/// source image.
proof fn lemma_overlay_data(img: PixelBuffer, params: HeatmapParams, out: PixelBuffer)
    requires
        img.wf(),
        out.wf(),
        out.width == img.width,
        out.height == img.height,
        forall|x: int, y: int|
            img.in_bounds(x, y) ==> #[trigger] out.pixel_of(x, y) == overlay_pixel_of(
                img,
                params,
                x,
                y,
            ),
    ensures
        out.data@ == overlay_bytes_of(img, params),
{
    let w = img.width as int;
    let h = img.height as int;
    assert forall|i: int| 0 <= i < out.data@.len() implies out.data@[i] == overlay_bytes_of(
        img,
        params,
    )[i] by {
        lemma_byte_decompose(w, h, i);
        let px = i / 4;
        let c = i % 4;
        let x = px % w;
        let y = px / w;
        assert(out.pixel_of(x, y) == overlay_pixel_of(img, params, x, y));
    }
    assert(out.data@ =~= overlay_bytes_of(img, params));
}

/// Generate the heatmap overlay of an encoded image (png, jpg, and the other
/// formats the codec reads) and return it as PNG bytes. Fails with
/// `DecodeError` exactly when the input bytes are not a readable image;
/// succeeds on every decodable image with positive dimensions. On success
/// the returned bytes are the PNG serialization of the overlay of the
/// decoded image; whenever they decode at all they decode back to exactly
/// that overlay, and for images up to 128 MiB of raw pixels they are owed
/// to decode.
pub fn generate_heatmap_png_from_encoded_bytes(input: &[u8], params: HeatmapParams) -> (r: Result<
    Vec<u8>,
    HeatmapError,
>)
    requires
        params.wf(),
    ensures
        decoded_rgba(input@) is None <==> r == Err::<Vec<u8>, HeatmapError>(
            HeatmapError::DecodeError,
        ),
        decoded_rgba(input@) matches Some(t) && t.0 >= 1 && t.1 >= 1 ==> r is Ok,
        r matches Err(e) ==> (e == HeatmapError::DecodeError || e == HeatmapError::EncodeError),
        r matches Ok(png) ==> (exists|b: PixelBuffer|
            {
                &&& b.wf()
                &&& decoded_rgba(input@) == Some((b.width, b.height, b.data@))
                &&& png@ == png_encoding(b.width, b.height, #[trigger] overlay_bytes_of(
                    b,
                    params,
                ))
                &&& (decoded_rgba(png@) is Some ==> decoded_rgba(png@) == Some(
                    (b.width, b.height, overlay_bytes_of(b, params)),
                ))
                &&& (b.data@.len() <= 0x8000000 ==> decoded_rgba(png@) is Some)
            }),
{
    let buf = match decode_rgba(input) {
        Some(b) => b,
        None => {
            return Err(HeatmapError::DecodeError);
        },
    };
    let out = produce_overlay(&buf, &params);
    proof {
        lemma_overlay_data(buf, params, out);
    }
    match encode_png(&out) {
        Some(png) => Ok(png),
        None => Err(HeatmapError::EncodeError),
    }
}

/// Generate the heatmap overlay of an encoded image and return its PNG
/// serialization as base64 text, for callers that embed the result. The
/// failure cases are those of PNG generation; on a decodable image with
/// positive dimensions the only failure left is a PNG too large for the
/// base64 output-size computation, reported as `EncodeError`.
pub fn generate_heatmap_base64_from_encoded_bytes(input: &[u8], params: HeatmapParams) -> (r:
    Result<String, HeatmapError>)
    requires
        params.wf(),
    ensures
        decoded_rgba(input@) is None <==> r == Err::<String, HeatmapError>(
            HeatmapError::DecodeError,
        ),
        r matches Err(e) ==> (e == HeatmapError::DecodeError || e == HeatmapError::EncodeError),
        r is Err && (decoded_rgba(input@) matches Some(t) && t.0 >= 1 && t.1 >= 1) ==> (exists|
            b: PixelBuffer,
        |
            {
                &&& b.wf()
                &&& decoded_rgba(input@) == Some((b.width, b.height, b.data@))
                &&& png_encoding(b.width, b.height, #[trigger] overlay_bytes_of(b, params)).len()
                    > 0x4000000000000000
            }),
        r matches Ok(s) ==> (exists|b: PixelBuffer|
            {
                &&& b.wf()
                &&& decoded_rgba(input@) == Some((b.width, b.height, b.data@))
                &&& s@ == base64_of(
                    png_encoding(b.width, b.height, #[trigger] overlay_bytes_of(b, params)),
                )
            }),
{
    let png = match generate_heatmap_png_from_encoded_bytes(input, params) {
        Ok(p) => p,
        Err(e) => {
            return Err(e);
        },
    };
    if png.len() as u64 <= 0x4000000000000000u64 {
        Ok(base64_encode(&png))
    } else {
        Err(HeatmapError::EncodeError)
    }
}

} // verus!
