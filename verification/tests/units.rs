use contrast_heatmap::luma::{LUMA_FLARE, LUMA_SCALE};
use contrast_heatmap::HeatmapError;
use contrast_heatmap::{
    alpha_for_count, blend_channel, contrast_ratio_from_luma, contrast_ratio_le, luminance_rgb,
    srgb_to_linear_u8,
};

#[test]
fn srgb_endpoints_are_exact() {
    assert_eq!(srgb_to_linear_u8(0), 0);
    assert_eq!(srgb_to_linear_u8(255), 1_000_000);
}

#[test]
fn srgb_linear_segment_and_curve() {
    // linear segment: c/255 <= 0.03928 holds up to c = 10
    assert_eq!(srgb_to_linear_u8(10), 3_035);
    // first value on the power-law segment
    assert_eq!(srgb_to_linear_u8(11), 3_347);
    // mid-gray
    assert_eq!(srgb_to_linear_u8(128), 215_861);
}

#[test]
fn luminance_of_black_is_zero() {
    assert_eq!(luminance_rgb(0, 0, 0), 0);
}

#[test]
fn luminance_of_white_is_full_scale() {
    assert_eq!(luminance_rgb(255, 255, 255), LUMA_SCALE);
}

#[test]
fn luminance_weights_combine() {
    // pure green: 0.7152 of the green channel's linear value
    assert_eq!(luminance_rgb(0, 255, 0), 7152 * 1_000_000);
}

#[test]
fn contrast_black_vs_white_is_21() {
    let black = luminance_rgb(0, 0, 0);
    let white = luminance_rgb(255, 255, 255);
    let (num, den) = contrast_ratio_from_luma(black, white);
    assert_eq!(num, LUMA_SCALE + LUMA_FLARE);
    assert_eq!(den, LUMA_FLARE);
    // (1.0 + 0.05) / (0.0 + 0.05) == 21 exactly
    assert_eq!(num, 21 * den);
}

#[test]
fn contrast_ratio_is_symmetric() {
    let l1 = luminance_rgb(30, 30, 30);
    let l2 = luminance_rgb(86, 86, 86);
    assert_eq!(contrast_ratio_from_luma(l1, l2), contrast_ratio_from_luma(l2, l1));
    assert_eq!(contrast_ratio_le(l1, l2, 3000), contrast_ratio_le(l2, l1, 3000));
}

#[test]
fn contrast_threshold_decisions() {
    let black = luminance_rgb(0, 0, 0);
    let white = luminance_rgb(255, 255, 255);
    // ratio 21 is above 3.0 but within 21.0
    assert!(!contrast_ratio_le(black, white, 3000));
    assert!(contrast_ratio_le(black, white, 21000));
    // a luminance against itself has ratio exactly 1
    assert!(contrast_ratio_le(black, black, 1000));
    let l = luminance_rgb(30, 30, 30);
    let m = luminance_rgb(86, 86, 86);
    // measured ratio of this pair is about 2.27
    assert!(contrast_ratio_le(l, m, 3000));
    assert!(!contrast_ratio_le(l, m, 2000));
}

#[test]
fn alpha_tier_boundary() {
    // low tier at its top: round(255 * 0.0052 * 25) == 33
    assert_eq!(alpha_for_count(25), 33);
    // high tier just above: round(255 * 0.02 * 26) == 133
    assert_eq!(alpha_for_count(26), 133);
}

#[test]
fn alpha_scale_points() {
    assert_eq!(alpha_for_count(0), 0);
    assert_eq!(alpha_for_count(1), 1);
    assert_eq!(alpha_for_count(4), 5);
    assert_eq!(alpha_for_count(49), 250);
    assert_eq!(alpha_for_count(50), 255);
    assert_eq!(alpha_for_count(1_000_000), 255);
}

#[test]
fn blend_endpoints_and_midpoint() {
    assert_eq!(blend_channel(100, 200, 0), 100);
    assert_eq!(blend_channel(100, 200, 255), 200);
    // base 0, heat 255, alpha 128: 255*128/255 = 128 exactly
    assert_eq!(blend_channel(0, 255, 128), 128);
    // base 30, heat 234, alpha 5: round(30*250/255 + 234*5/255) = 34
    assert_eq!(blend_channel(30, 234, 5), 34);
}

#[test]
fn error_messages_name_each_failure() {
    assert_eq!(HeatmapError::DecodeError.message(), "failed to decode input bytes as an image");
    assert_eq!(HeatmapError::EncodeError.message(), "failed to encode output PNG");
    assert_eq!(HeatmapError::InvalidPath.message(), "input filename has no valid stem");
}
