use vstd::prelude::*;

verus! {

/// A source-frame region to extract, in source pixels.
#[derive(Clone, Copy, Debug, PartialEq, Eq, Structural)]
pub struct CropRect {
    pub x: u32,
    pub y: u32,
    pub width: u32,
    pub height: u32,
}

/// The size and container/codec family of the encoded output.
#[derive(Clone, Debug, PartialEq, Eq)]
pub struct OutputSettings {
    pub width: u32,
    pub height: u32,
    pub format: String,
}

/// A source-relative time window, in milliseconds.
#[derive(Clone, Copy, Debug, PartialEq, Eq, Structural)]
pub struct TrimRange {
    pub start_ms: i64,
    pub end_ms: i64,
}

/// One crop/trim/rescale/re-encode request.
#[derive(Clone, Debug, PartialEq, Eq)]
pub struct CropRequest {
    pub input_path: String,
    pub output_path: String,
    pub crop: CropRect,
    pub output: OutputSettings,
    pub trim: Option<TrimRange>,
}

/// Which of the two sizes collapsed during normalization.
#[derive(Clone, Copy, Debug, PartialEq, Eq, Structural)]
pub enum GeometryPart {
    Crop,
    Output,
}

/// Why one request failed.
#[derive(Clone, Debug, PartialEq, Eq)]
pub enum CropError {
    InvalidGeometry(GeometryPart),
    InvalidTrim,
    LaunchFailure(String),
    EncodeFailure(String),
}

/// The text reported to the user for an error.
pub open spec fn error_message(e: CropError) -> Seq<char> {
    match e {
        CropError::InvalidGeometry(GeometryPart::Crop) => "Crop size is empty after normalization."@,
        CropError::InvalidGeometry(GeometryPart::Output) => "Output size is empty after normalization."@,
        CropError::InvalidTrim => "Trim duration must be greater than 0."@,
        CropError::LaunchFailure(os) => "Failed to run ffmpeg: "@ + os@,
        CropError::EncodeFailure(tail) => "ffmpeg failed:\n"@ + tail@,
    }
}

impl CropError {
    /// The human-readable text of this error.
    pub fn message(&self) -> (r: String)
        ensures
            r@ == error_message(*self),
    {
        match self {
            CropError::InvalidGeometry(GeometryPart::Crop) => String::from_str(
                "Crop size is empty after normalization.",
            ),
            CropError::InvalidGeometry(GeometryPart::Output) => String::from_str(
                "Output size is empty after normalization.",
            ),
            CropError::InvalidTrim => String::from_str("Trim duration must be greater than 0."),
            CropError::LaunchFailure(os) => {
                let mut s = String::from_str("Failed to run ffmpeg: ");
                s.append(os.as_str());
                s
            },
            CropError::EncodeFailure(tail) => {
                let mut s = String::from_str("ffmpeg failed:\n");
                s.append(tail.as_str());
                s
            },
        }
    }
}

} // verus!
