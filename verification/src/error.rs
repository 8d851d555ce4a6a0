//! Error types of capture and of shell surfaces.

use vstd::prelude::*;

use crate::format::PixelFormat;
use crate::shell::SurfaceRole;

verus! {

/// Makes `std::io::Error` known to Verus as an opaque type, so that a
/// `CaptureError` can carry the error of a failed shared-memory allocation.
/// Nothing is claimed about its contents.
#[verifier::external_type_specification]
#[verifier::external_body]
pub struct ExIoError(std::io::Error);

/// Why a capture did not produce a frame.
#[derive(Debug)]
pub enum CaptureError {
    ShmAllocationFailed(std::io::Error),
    WaylandError(String),
    CaptureFailed(String),
    UnsupportedFormat(PixelFormat),
    EncodingFailed(String),
    Timeout(std::time::Duration),
}

/// `e` is a `CaptureFailed` error carrying the message `msg`.
pub open spec fn failed_with(e: CaptureError, msg: Seq<char>) -> bool {
    e matches CaptureError::CaptureFailed(m) && m@ == msg
}

/// Why a shell surface refused a request.
#[derive(Debug, PartialEq, Eq, Structural)]
pub enum ShellError {
    RoleAlreadyAssigned,
    IncompatibleRole(SurfaceRole),
    UninitializedSurface,
}

/// A `CaptureFailed` error with the given message.
pub fn capture_failed(msg: &str) -> (e: CaptureError)
    ensures
        failed_with(e, msg@),
{
    CaptureError::CaptureFailed(msg.to_string())
}

} // verus!
