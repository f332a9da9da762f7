//! The failure taxonomy of a recomputation. Every failure is recovered at the
//! orchestrator boundary and surfaced as a description for display; none
//! terminates the process.

use vstd::prelude::*;

verus! {

/// Why a recomputation produced no result.
#[derive(Debug, Clone, Copy, PartialEq, Eq)]
pub enum ComputeError {
    /// An operation that needs a loaded image ran before one exists.
    NoSourceImage,
    /// The transformed buffer and grid could not be hashed.
    EncodeFailed,
    /// A hash could not be decoded at the requested size. A freshly encoded
    /// hash always decodes, so the orchestrator never reports this; the codec
    /// boundary returns it for a malformed hash.
    DecodeFailed,
    /// A decoded byte count does not match the requested size.
    PreviewMismatch,
}

impl ComputeError {
    /// A short description for display to the user.
    pub fn message(&self) -> (r: &'static str)
        ensures
            match self {
                ComputeError::NoSourceImage => r@ == "source image is not available"@,
                ComputeError::EncodeFailed => r@ == "failed to compute the blurhash"@,
                ComputeError::DecodeFailed => r@ == "failed to decode the computed blurhash"@,
                ComputeError::PreviewMismatch => r@
                    == "failed to create preview image from decoded buffer"@,
            },
    {
        match self {
            ComputeError::NoSourceImage => "source image is not available",
            ComputeError::EncodeFailed => "failed to compute the blurhash",
            ComputeError::DecodeFailed => "failed to decode the computed blurhash",
            ComputeError::PreviewMismatch => "failed to create preview image from decoded buffer",
        }
    }
}

} // verus!
