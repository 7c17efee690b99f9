use vstd::prelude::*;

verus! {

/// The ways one heatmap request can fail. Each failure is local to its own
/// request: either a complete overlay is produced or nothing is.
#[derive(Clone, Copy, Debug, PartialEq, Eq, Structural)]
pub enum HeatmapError {
    /// The input bytes are not a readable image.
    DecodeError,
    /// The finished overlay could not be serialized as PNG.
    EncodeError,
    /// No output path can be derived: the input path has no valid filename
    /// stem.
    InvalidPath,
}

impl HeatmapError {
    /// A short description of the failure.
    pub fn message(&self) -> (m: &'static str)
        ensures
            (*self is DecodeError) ==> m@ == "failed to decode input bytes as an image"@,
            (*self is EncodeError) ==> m@ == "failed to encode output PNG"@,
            (*self is InvalidPath) ==> m@ == "input filename has no valid stem"@,
    {
        match self {
            HeatmapError::DecodeError => "failed to decode input bytes as an image",
            HeatmapError::EncodeError => "failed to encode output PNG",
            HeatmapError::InvalidPath => "input filename has no valid stem",
        }
    }
}

} // verus!
