use vstd::prelude::*;

verus! {

/// The error returned by a failed capture, identifying the stage that failed.
/// Each variant carries a static diagnostic message.
#[derive(Debug, Clone, Copy, PartialEq, Eq)]
pub enum CaptureError {
    /// Acquiring a drawable-surface device context failed.
    DeviceContextError(&'static str),
    /// Creating an off-screen memory device context failed.
    CompatibleDcError(&'static str),
    /// Creating an off-screen bitmap failed.
    BitmapError(&'static str),
    /// A mid-pipeline operation failed; the message names the stage.
    ProcessError(&'static str),
}

impl CaptureError {
    /// The stage-identifying diagnostic message carried by this error.
    pub open spec fn spec_message(self) -> &'static str {
        match self {
            CaptureError::DeviceContextError(m) => m,
            CaptureError::CompatibleDcError(m) => m,
            CaptureError::BitmapError(m) => m,
            CaptureError::ProcessError(m) => m,
        }
    }

    /// Returns the diagnostic message carried by this error.
    pub fn message(&self) -> (m: &'static str)
        ensures
            m == self.spec_message(),
    {
        match self {
            CaptureError::DeviceContextError(m) => m,
            CaptureError::CompatibleDcError(m) => m,
            CaptureError::BitmapError(m) => m,
            CaptureError::ProcessError(m) => m,
        }
    }
}

} // verus!
