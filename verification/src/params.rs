use vstd::prelude::*;

verus! {

/// Configuration of one heatmap run.
#[derive(Clone, Copy, Debug, PartialEq, Eq, Structural)]
pub struct HeatmapParams {
    /// Neighborhood half-width; the scan window has side `2*radius + 1`.
    pub radius: u32,
    /// Largest contrast ratio still counted as low contrast, in thousandths
    /// (3000 stands for a ratio of 3.0).
    pub threshold_milli: u32,
    /// Red channel of the heat color blended onto flagged pixels.
    pub heat_r: u8,
    /// Green channel of the heat color.
    pub heat_g: u8,
    /// Blue channel of the heat color.
    pub heat_b: u8,
}

impl HeatmapParams {
    /// The radius must leave the window side `2*radius + 1` within the range
    /// of signed 32-bit offsets used by the neighborhood arithmetic.
    pub open spec fn wf(self) -> bool {
        self.radius <= 0x7fffffff
    }
}

impl Default for HeatmapParams {
    /// The default configuration: radius 3, threshold 3.0, heat color
    /// (234, 14, 14).
    fn default() -> (d: Self)
        ensures
            d == (HeatmapParams {
                radius: 3,
                threshold_milli: 3000,
                heat_r: 234,
                heat_g: 14,
                heat_b: 14,
            }),
            d.wf(),
    {
        HeatmapParams { radius: 3, threshold_milli: 3000, heat_r: 234, heat_g: 14, heat_b: 14 }
    }
}

} // verus!
