//! The error taxonomy of the capture core.

use vstd::prelude::*;

verus! {

/// Everything that can abort a recording attempt.
#[derive(Clone, Copy, Debug, PartialEq, Eq, Structural)]
pub enum CaptureError {
    /// The device string is empty, carries no direction marker, or names nothing.
    InvalidDescriptor,
    /// No enumerated or default device matches the descriptor.
    DeviceNotFound,
    /// The negotiated sample encoding has no conversion path.
    UnsupportedFormat,
    /// The platform rejected stream construction or activation.
    StreamStartFailure,
}

impl CaptureError {
    /// A short human-readable name for the error.
    pub fn message(&self) -> (r: String)
        ensures
            r@ == error_message(*self),
    {
        match self {
            CaptureError::InvalidDescriptor => String::from_str(
                "device type (input/output) not specified in the name",
            ),
            CaptureError::DeviceNotFound => String::from_str("audio device not found"),
            CaptureError::UnsupportedFormat => String::from_str("unsupported sample format"),
            CaptureError::StreamStartFailure => String::from_str("failed to start audio stream"),
        }
    }
}

/// The text that `CaptureError::message` renders.
pub open spec fn error_message(e: CaptureError) -> Seq<char> {
    match e {
        CaptureError::InvalidDescriptor => "device type (input/output) not specified in the name"@,
        CaptureError::DeviceNotFound => "audio device not found"@,
        CaptureError::UnsupportedFormat => "unsupported sample format"@,
        CaptureError::StreamStartFailure => "failed to start audio stream"@,
    }
}

} // verus!
