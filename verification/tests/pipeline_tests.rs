use contrast_heatmap::scan::luminance_field;
use contrast_heatmap::{
    convolve_3x3_clamp_edges, count_low_contrast_neighbors, generate_heatmap_base64_from_encoded_bytes,
    generate_heatmap_png_from_encoded_bytes, produce_overlay, HeatmapError, HeatmapParams,
    PixelBuffer,
};

fn gray(v: u8) -> [u8; 4] {
    [v, v, v, 255]
}

fn buffer_from(pixels: &[[u8; 4]], width: u32, height: u32) -> PixelBuffer {
    assert_eq!(pixels.len(), (width * height) as usize);
    let mut data = Vec::new();
    for p in pixels {
        data.extend_from_slice(p);
    }
    PixelBuffer { width, height, data }
}

/// A 5x5 checkerboard of two grays whose contrast ratio is about 2.27
/// before sharpening and stays at or below 3.0 after it.
fn checkerboard() -> PixelBuffer {
    let mut pixels = Vec::new();
    for y in 0..5u32 {
        for x in 0..5u32 {
            pixels.push(if (x + y) % 2 == 0 { gray(30) } else { gray(86) });
        }
    }
    buffer_from(&pixels, 5, 5)
}

#[test]
fn single_pixel_image_is_untouched() {
    // every neighbor of the only pixel is out of bounds, so its count is 0
    // and the output equals the input exactly, alpha included
    let img = buffer_from(&[[10, 200, 30, 77]], 1, 1);
    let out = produce_overlay(&img, &HeatmapParams::default());
    assert_eq!(out.width, 1);
    assert_eq!(out.height, 1);
    assert_eq!(out.data, img.data);
}

#[test]
fn uniform_image_is_untouched() {
    // 8x8 at radius 3 covers a full (2*3+1)^2 window: every neighbor has
    // equal luminance, every pixel is skipped, output equals input exactly
    let pixels = vec![[77, 88, 99, 123]; 64];
    let img = buffer_from(&pixels, 8, 8);
    let out = produce_overlay(&img, &HeatmapParams::default());
    assert_eq!(out.data, img.data);
}

#[test]
fn uniform_region_passes_through_sharpening() {
    // the kernel sums to one, so a uniform image convolves to itself
    let pixels = vec![[130, 7, 200, 9]; 16];
    let img = buffer_from(&pixels, 4, 4);
    let sharp = convolve_3x3_clamp_edges(&img);
    assert_eq!(sharp.data, img.data);
}

#[test]
fn checkerboard_counts_match_hand_computed_grid() {
    let img = checkerboard();
    let params = HeatmapParams::default();
    let sharp = convolve_3x3_clamp_edges(&img);
    let field = luminance_field(&sharp);
    let mut counts = Vec::new();
    for y in 0..5u32 {
        for x in 0..5u32 {
            counts.push(count_low_contrast_neighbors(&field, 5, 5, x, y, 1, params.threshold_milli));
        }
    }
    let expected: Vec<u64> = vec![
        3, 4, 5, 4, 3,
        4, 7, 6, 7, 4,
        5, 6, 4, 6, 5,
        4, 7, 6, 7, 4,
        3, 4, 5, 4, 3,
    ];
    assert_eq!(counts, expected);
    // the center pixel has 8 in-bounds neighbors of which the 4 diagonal
    // ones share its color and are skipped: 8 - 4 = 4
    assert_eq!(counts[12], 4);
}

#[test]
fn checkerboard_overlay_matches_hand_computed_pixels() {
    let img = checkerboard();
    let mut params = HeatmapParams::default();
    params.radius = 1;
    let out = produce_overlay(&img, &params);
    let expected: Vec<u8> = vec![
        33, 30, 30, 255, 89, 85, 85, 255, 36, 30, 30, 255, 89, 85, 85, 255, 33, 30, 30, 255, 89,
        85, 85, 255, 37, 29, 29, 255, 91, 84, 84, 255, 37, 29, 29, 255, 89, 85, 85, 255, 36, 30,
        30, 255, 91, 84, 84, 255, 34, 30, 30, 255, 91, 84, 84, 255, 36, 30, 30, 255, 89, 85, 85,
        255, 37, 29, 29, 255, 91, 84, 84, 255, 37, 29, 29, 255, 89, 85, 85, 255, 33, 30, 30, 255,
        89, 85, 85, 255, 36, 30, 30, 255, 89, 85, 85, 255, 33, 30, 30, 255,
    ];
    assert_eq!(out.data, expected);
}

fn to_png_bytes(buf: &PixelBuffer) -> Vec<u8> {
    let img = image::RgbaImage::from_raw(buf.width, buf.height, buf.data.clone()).unwrap();
    let mut out = Vec::new();
    image::DynamicImage::ImageRgba8(img)
        .write_to(&mut std::io::Cursor::new(&mut out), image::ImageFormat::Png)
        .unwrap();
    out
}

#[test]
fn png_round_trip_preserves_the_overlay() {
    // encode a checkerboard, run the whole pipeline on the encoded bytes,
    // then decode the produced PNG: it must hold exactly the overlay that
    // the in-memory pipeline computes (PNG is lossless)
    let img = checkerboard();
    let mut params = HeatmapParams::default();
    params.radius = 1;
    let png_in = to_png_bytes(&img);
    let png_out = generate_heatmap_png_from_encoded_bytes(&png_in, params).unwrap();
    let decoded = image::load_from_memory(&png_out).unwrap().to_rgba8();
    assert_eq!(decoded.dimensions(), (5, 5));
    let expected = produce_overlay(&img, &params);
    assert_eq!(decoded.into_raw(), expected.data);
}

#[test]
fn garbage_bytes_fail_with_decode_error() {
    let params = HeatmapParams::default();
    let r = generate_heatmap_png_from_encoded_bytes(b"not an image at all", params);
    assert_eq!(r.unwrap_err(), HeatmapError::DecodeError);
    assert_eq!(HeatmapError::DecodeError.message(), "failed to decode input bytes as an image");
}

#[test]
fn base64_output_encodes_the_png() {
    let img = checkerboard();
    let mut params = HeatmapParams::default();
    params.radius = 1;
    let png_in = to_png_bytes(&img);
    let png_out = generate_heatmap_png_from_encoded_bytes(&png_in, params).unwrap();
    let b64 = generate_heatmap_base64_from_encoded_bytes(&png_in, params).unwrap();
    let expected = base64::Engine::encode(&base64::engine::general_purpose::STANDARD, &png_out);
    assert_eq!(b64, expected);
}

#[test]
fn base64_of_garbage_fails_with_decode_error() {
    let params = HeatmapParams::default();
    let r = generate_heatmap_base64_from_encoded_bytes(&[1, 2, 3], params);
    assert_eq!(r.unwrap_err(), HeatmapError::DecodeError);
}

#[test]
fn default_params_match_the_documented_configuration() {
    let p = HeatmapParams::default();
    assert_eq!(p.radius, 3);
    assert_eq!(p.threshold_milli, 3000);
    assert_eq!((p.heat_r, p.heat_g, p.heat_b), (234, 14, 14));
}

#[test]
fn wide_image_counts_respect_bounds() {
    // a 4x2 image scanned at radius 2: the window is larger than the image,
    // so out-of-bounds offsets are skipped and each pixel sees only the
    // in-bounds neighbors (5 at the corners, 7 in the middle columns); at a
    // threshold of 21.0 every distinct-luminance neighbor is counted
    let pixels = [
        [10, 20, 30, 255],
        [200, 10, 50, 128],
        [60, 60, 60, 255],
        [0, 0, 0, 0],
        [255, 255, 255, 255],
        [5, 250, 5, 9],
        [100, 100, 200, 255],
        [30, 86, 30, 255],
    ];
    let img = buffer_from(&pixels, 4, 2);
    let sharp = convolve_3x3_clamp_edges(&img);
    let field = luminance_field(&sharp);
    let mut wide = Vec::new();
    let mut strict = Vec::new();
    for y in 0..2u32 {
        for x in 0..4u32 {
            wide.push(count_low_contrast_neighbors(&field, 4, 2, x, y, 2, 21000));
            strict.push(count_low_contrast_neighbors(&field, 4, 2, x, y, 2, 3000));
        }
    }
    assert_eq!(wide, vec![5, 7, 7, 5, 5, 7, 7, 5]);
    assert_eq!(strict, vec![1, 3, 5, 2, 1, 1, 3, 4]);
}
