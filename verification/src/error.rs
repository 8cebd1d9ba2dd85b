//! What can go wrong while a report is prepared or a screenshot is handled.

use vstd::prelude::*;
use vstd::string::*;

verus! {

/// The failures that the library decides on. Each reaches the user as its
/// message.
#[derive(Clone, Debug, PartialEq, Eq)]
pub enum ReportError {
    /// The session's start time is no timestamp that the calendar reaches.
    InvalidStartedAt,
    /// The screenshot that a note names is not on disk.
    MissingScreenshot { path: String },
    /// The path of a note's screenshot ends in no file name.
    NoScreenshotFileName,
    /// The screenshot that should be duplicated is not on disk.
    MissingSource { path: String },
    /// The path of a screenshot lies in no directory.
    NoScreenshotDirectory,
    /// The selected region does not overlap the image.
    CropOutsideImage,
    /// No attempt to start the snipping tool succeeded.
    SnipToolNotLaunched,
}

impl ReportError {
    /// The message of the failure.
    pub open spec fn text(self) -> Seq<char> {
        match self {
            ReportError::InvalidStartedAt => "Invalid session startedAt timestamp"@,
            ReportError::MissingScreenshot { path } => "Screenshot file does not exist: "@ + path@,
            ReportError::NoScreenshotFileName => "Could not determine screenshot filename"@,
            ReportError::MissingSource { path } => "Source file does not exist: "@ + path@,
            ReportError::NoScreenshotDirectory => "Could not determine screenshot directory"@,
            ReportError::CropOutsideImage => "Crop area is outside the image bounds."@,
            ReportError::SnipToolNotLaunched => "Could not launch Windows Snipping Tool."@,
        }
    }

    /// Writes the message of the failure.
    pub fn message(&self) -> (r: String)
        ensures
            r@ == self.text(),
    {
        match self {
            ReportError::InvalidStartedAt => "Invalid session startedAt timestamp".to_string(),
            ReportError::MissingScreenshot { path } => {
                let mut r: String = "Screenshot file does not exist: ".to_string();
                r.append(path.as_str());
                r
            },
            ReportError::NoScreenshotFileName => {
                "Could not determine screenshot filename".to_string()
            },
            ReportError::MissingSource { path } => {
                let mut r: String = "Source file does not exist: ".to_string();
                r.append(path.as_str());
                r
            },
            ReportError::NoScreenshotDirectory => {
                "Could not determine screenshot directory".to_string()
            },
            ReportError::CropOutsideImage => "Crop area is outside the image bounds.".to_string(),
            ReportError::SnipToolNotLaunched => {
                "Could not launch Windows Snipping Tool.".to_string()
            },
        }
    }
}

} // verus!
