//! Error kinds of the sampling core.
//!
//! Every failure in the core is terminal for the run: there is no retry and
//! no degraded mode.  The caller maps a kind to a report and a non-zero exit.

use vstd::prelude::*;

verus! {

/// The ways a sampling run can fail before or while touching the device.
#[derive(Clone, Copy, Debug, PartialEq, Eq, Structural)]
pub enum TraceError {
    /// The configuration-space or BAR resource could not be opened or is
    /// too small to hold the status register.
    ResourceOpenFailure,
    /// A seek, read or write did not complete fully.
    TransferFailure,
    /// The capability table offers no usable transport for this device.
    UnsupportedDevice,
    /// A driver is bound and the device has no configuration-space fallback.
    BlockedByDriver,
    /// An operation was requested on a transport that cannot perform it.
    PreconditionViolation,
}

impl TraceError {
    /// A short description of the error kind, for reporting.
    pub fn message(&self) -> (s: &'static str)
        ensures
            (*self is ResourceOpenFailure) ==> s@ == "failed to open device resource"@,
            (*self is TransferFailure) ==> s@ == "register transfer did not complete"@,
            (*self is UnsupportedDevice) ==> s@ == "device is not supported"@,
            (*self is BlockedByDriver) ==> s@ == (
            "a driver is bound and the device does not support falling back to config access"@),
            (*self is PreconditionViolation) ==> s@ == (
            "operation is not available on the selected transport"@),
    {
        match self {
            TraceError::ResourceOpenFailure => "failed to open device resource",
            TraceError::TransferFailure => "register transfer did not complete",
            TraceError::UnsupportedDevice => "device is not supported",
            TraceError::BlockedByDriver => (
            "a driver is bound and the device does not support falling back to config access"),
            TraceError::PreconditionViolation => (
            "operation is not available on the selected transport"),
        }
    }
}

} // verus!
