//! Low-contrast heatmap overlays for RGBA images.
//!
//! The pipeline sharpens a copy of the input for analysis, precomputes a
//! fixed-point WCAG relative luminance for every pixel of that copy, counts
//! for each pixel how many neighbors in a square window sit at or below a
//! contrast-ratio threshold, and alpha-blends a fixed heat color onto the
//! original wherever that count is positive. Decoding and PNG encoding are
//! delegated to an external codec.

pub mod codec;
pub mod composite;
pub mod errors;
pub mod laws;
pub mod luma;
pub mod params;
pub mod paths;
pub mod pipeline;
pub mod pixel;
pub mod scan;
pub mod sharpen;
pub mod srgb;

pub use composite::{alpha_for_count, blend_channel, composite_pixel};
pub use errors::HeatmapError;
pub use luma::{contrast_ratio_from_luma, contrast_ratio_le, luminance_rgb};
pub use params::HeatmapParams;
pub use paths::derive_output_path;
pub use pipeline::{
    generate_heatmap_base64_from_encoded_bytes, generate_heatmap_png_from_encoded_bytes,
    produce_overlay,
};
pub use pixel::{PixelBuffer, Rgba};
pub use scan::count_low_contrast_neighbors;
pub use sharpen::convolve_3x3_clamp_edges;
pub use srgb::srgb_to_linear_u8;
