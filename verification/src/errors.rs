use vstd::prelude::*;

verus! {

/// Errors of the virtual device subsystem.
///
/// `ContractViolation` marks a broken caller of the readiness protocol and is
/// fatal to that call; every other variant is an ordinary recoverable result.
#[derive(Debug, Copy, Clone, PartialEq, Eq, Structural)]
pub enum DeviceError {
    /// The interest array and the ready output array differ in length.
    ContractViolation,
    /// An interest names a (family, index) that was never attached.
    UnknownDevice,
    /// An unsupported open flag, sync flag or structural mutation.
    NotSupported,
    /// A mutation attempt on the read-only device namespace.
    PermissionDenied,
    /// A read on a write-only handle, or a write on a read-only one.
    BadDescriptor,
    /// An unresolvable device path or index.
    NotFound,
}

} // verus!
