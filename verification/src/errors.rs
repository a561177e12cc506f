//! Error taxonomy shared by the capture chain, the asset resolver and the
//! notification path.

use vstd::prelude::*;

verus! {

/// Why a capability call failed.
///
/// Every capture method swallows its internal faults into one of these;
/// the chain surfaces only the final method's failure.
#[derive(Debug)]
pub enum CaptureError {
    /// The capability does not exist on the running platform family.
    PlatformUnsupported,
    /// The tool or API behind a method was not found.
    MethodUnavailable(String),
    /// The method ran but produced no output, or unusable output.
    MethodFailed(String),
    /// The method produced output below the minimum size.
    ValidationFailed(usize),
    /// A temporary file could not be written, read or removed.
    FilesystemError(String),
    /// The operating system refused access.
    PermissionDenied,
}

} // verus!
