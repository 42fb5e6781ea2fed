use vstd::prelude::*;

verus! {

/// Failures of the guest bring-up.
#[derive(Debug, Clone, Copy, PartialEq, Eq, Structural)]
pub enum Error {
    /// The requested guest memory size is zero or above the RAM ceiling.
    InvalidSize,
    /// Host memory for the guest could not be reserved.
    GuestMemory,
    /// The control interface refused to create the VM.
    VmCreation,
    /// The control interface refused to create or initialize a vCPU.
    VcpuCreation,
    /// A register read or write was rejected by the control interface.
    RegisterAccess,
    /// The kernel image could not be read or is malformed.
    KernelLoad,
}

/// Result of the bring-up operations.
pub type Result<T> = core::result::Result<T, Error>;

} // verus!
