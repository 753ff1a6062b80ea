use vstd::prelude::*;
use vstd::string::StringExecFns;

verus! {

/// Why a control operation was refused.
#[derive(Clone, Copy, Debug, PartialEq, Eq, Structural)]
pub enum CaptureError {
    /// This platform has no native capture.
    PlatformUnsupported,
    /// A session is active already.
    AlreadyRunning,
    /// No session is active.
    NotRunning,
    /// The target id is not of the form `window:<handle>` or
    /// `monitor:<index>`.
    InvalidTarget,
    /// The id is well-formed, but nothing on screen answers to it any more.
    TargetNotFound,
}

impl CaptureError {
    /// The text shown for the error.
    pub open spec fn spec_message(self) -> Seq<char> {
        match self {
            CaptureError::PlatformUnsupported => "Native capture is only supported on Windows"@,
            CaptureError::AlreadyRunning => "Capture already running"@,
            CaptureError::NotRunning => "No capture running"@,
            CaptureError::InvalidTarget => "Invalid target_id"@,
            CaptureError::TargetNotFound => "Capture target not found"@,
        }
    }

    /// The text shown for the error.
    pub fn message(&self) -> (text: String)
        ensures
            text@ == self.spec_message(),
    {
        match self {
            CaptureError::PlatformUnsupported => String::from_str(
                "Native capture is only supported on Windows",
            ),
            CaptureError::AlreadyRunning => String::from_str("Capture already running"),
            CaptureError::NotRunning => String::from_str("No capture running"),
            CaptureError::InvalidTarget => String::from_str("Invalid target_id"),
            CaptureError::TargetNotFound => String::from_str("Capture target not found"),
        }
    }

    /// Whether asking again can succeed without the caller changing state
    /// first: a stale or malformed id can be replaced after a fresh
    /// enumeration, the other refusals stand until the session changes.
    pub fn retryable(&self) -> (r: bool)
        ensures
            r == (*self == CaptureError::InvalidTarget || *self == CaptureError::TargetNotFound),
    {
        match self {
            CaptureError::InvalidTarget => true,
            CaptureError::TargetNotFound => true,
            _ => false,
        }
    }
}

} // verus!
