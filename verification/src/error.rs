use vstd::prelude::*;

verus! {

/// Errors raised by the recording core.  Every variant carries a
/// human-readable `details` message.
#[derive(Debug, Clone)]
pub enum RecordingError {
    /// A media stream (display, tab or microphone) could not be acquired.
    StreamAcquisitionFailed { details: String },
    /// An operation was attempted in a state that does not allow it.
    StateViolation { details: String },
    /// A chunk could not be written, renamed or decoded.
    WriteError { details: String },
    /// The export pipeline rejected the chunk sequence.
    ExportError { details: String },
    /// There is nothing to export.
    EmptySession { details: String },
    /// The browser's media recorder reported a failure.
    MediaRecorderError { details: String },
    /// Any other failure.
    Unknown { details: String },
}

impl RecordingError {
    /// The message carried by the error, whatever its variant.
    pub open spec fn spec_details(&self) -> Seq<char> {
        match self {
            RecordingError::StreamAcquisitionFailed { details } => details@,
            RecordingError::StateViolation { details } => details@,
            RecordingError::WriteError { details } => details@,
            RecordingError::ExportError { details } => details@,
            RecordingError::EmptySession { details } => details@,
            RecordingError::MediaRecorderError { details } => details@,
            RecordingError::Unknown { details } => details@,
        }
    }

    /// Return the message carried by the error.
    pub fn details(&self) -> (r: &str)
        ensures
            r@ == self.spec_details(),
    {
        match self {
            RecordingError::StreamAcquisitionFailed { details } => details.as_str(),
            RecordingError::StateViolation { details } => details.as_str(),
            RecordingError::WriteError { details } => details.as_str(),
            RecordingError::ExportError { details } => details.as_str(),
            RecordingError::EmptySession { details } => details.as_str(),
            RecordingError::MediaRecorderError { details } => details.as_str(),
            RecordingError::Unknown { details } => details.as_str(),
        }
    }
}

} // verus!
