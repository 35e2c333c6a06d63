//! Why a single file could not be processed.

use vstd::prelude::*;

verus! {

/// The reason one file was skipped. None of these aborts a batch.
#[derive(Clone, Copy, Debug, PartialEq, Eq, Structural)]
pub enum ExtractionError {
    /// The buffer does not start with a TIFF byte-order marker, or a
    /// directory of the chain does not lie inside the buffer.
    Format,
    /// The directory chain ended without recording any embedded JPEG.
    NotFound,
    /// The located range reaches beyond the end of the buffer, or does not
    /// begin with the JPEG start-of-image marker where that was asked for.
    Bounds,
    /// Opening, mapping, creating or writing a file failed.
    Io,
}

impl ExtractionError {
    /// A short human-readable description of the error.
    pub fn message(&self) -> (s: &'static str)
        ensures
            s@ == match *self {
                ExtractionError::Format => "Not a valid TIFF file"@,
                ExtractionError::NotFound => "No JPEG data found"@,
                ExtractionError::Bounds => "JPEG data exceeds file size"@,
                ExtractionError::Io => "I/O error"@,
            },
    {
        match self {
            ExtractionError::Format => "Not a valid TIFF file",
            ExtractionError::NotFound => "No JPEG data found",
            ExtractionError::Bounds => "JPEG data exceeds file size",
            ExtractionError::Io => "I/O error",
        }
    }
}

} // verus!
