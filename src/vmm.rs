use crate::error::{Error, Result};
use kvm_ioctls::Kvm;
use vstd::prelude::*;

verus! {

/// Relies on `Kvm::new`: opens the hypervisor device; `None` when it cannot.
#[verifier::external_body]
fn kvm_open() -> (r: Option<Kvm>) {
    Kvm::new().ok()
}

/// The monitor: a handle on the hypervisor.
pub struct Vmm {
    pub kvm: Kvm,
}

impl Vmm {
    /// Opens the hypervisor.
    pub fn new() -> (r: Result<Self>)
        ensures
            r is Err ==> r == Err::<Self, Error>(Error::VmCreation),
    {
        match kvm_open() {
            Some(kvm) => Ok(Vmm { kvm }),
            None => Err(Error::VmCreation),
        }
    }
}

} // verus!
