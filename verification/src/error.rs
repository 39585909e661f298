//! The ways an audio-control operation can fail.

use vstd::prelude::*;
use vstd::string::StringExecFns;

verus! {

/// A classified failure of the audio-control capability.
#[derive(Debug, PartialEq, Eq)]
pub enum AudioControlError {
    /// The capability could not be constructed.
    InitializationFailed(String),
    /// A property read did not complete; the payload is what the platform reported.
    GetPropertyFailed(String),
    /// A property write did not complete; the payload is what the platform reported.
    SetPropertyFailed(String),
    /// The platform offers no audio control at all.
    NotSupported,
}

/// What an [`AudioControlError`] says: its kind, and its diagnostic detail as
/// a sequence of characters.
pub enum ErrorView {
    InitializationFailed(Seq<char>),
    GetPropertyFailed(Seq<char>),
    SetPropertyFailed(Seq<char>),
    NotSupported,
}

impl View for AudioControlError {
    type V = ErrorView;

    open spec fn view(&self) -> ErrorView {
        match *self {
            AudioControlError::InitializationFailed(detail) => ErrorView::InitializationFailed(
                detail@,
            ),
            AudioControlError::GetPropertyFailed(detail) => ErrorView::GetPropertyFailed(detail@),
            AudioControlError::SetPropertyFailed(detail) => ErrorView::SetPropertyFailed(detail@),
            AudioControlError::NotSupported => ErrorView::NotSupported,
        }
    }
}

impl ErrorView {
    /// The human-readable text of the error: a fixed prefix per kind,
    /// followed by the diagnostic detail where there is one.
    pub open spec fn message(self) -> Seq<char> {
        match self {
            ErrorView::InitializationFailed(detail) => "Audio init failed: "@ + detail,
            ErrorView::GetPropertyFailed(detail) => "Failed to get audio property: "@ + detail,
            ErrorView::SetPropertyFailed(detail) => "Failed to set audio property: "@ + detail,
            ErrorView::NotSupported => "Audio control not supported on this platform"@,
        }
    }
}

impl AudioControlError {

    /// Renders the error for display.
    pub fn message(&self) -> (text: String)
        ensures
            text@ == self@.message(),
    {
        match self {
            AudioControlError::InitializationFailed(detail) => {
                String::from_str("Audio init failed: ").concat(detail.as_str())
            },
            AudioControlError::GetPropertyFailed(detail) => {
                String::from_str("Failed to get audio property: ").concat(detail.as_str())
            },
            AudioControlError::SetPropertyFailed(detail) => {
                String::from_str("Failed to set audio property: ").concat(detail.as_str())
            },
            AudioControlError::NotSupported => {
                String::from_str("Audio control not supported on this platform")
            },
        }
    }
}

} // verus!
