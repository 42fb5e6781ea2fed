use crate::config::VmConfig;
use crate::cpu::{BringUp, VmCpu};
use crate::error::{Error, Result};
use crate::layout::VmLayout;
use crate::memory::{guest_ranges, valid_ram_size, VmMemory};
use kvm_ioctls::{Kvm, VcpuFd, VmFd};
use vstd::prelude::*;

verus! {

#[verifier::external_type_specification]
#[verifier::external_body]
pub struct ExKvm(Kvm);

/// Relies on `Kvm::create_vm`: asks the hypervisor for a new VM; `None` when it
/// refuses.
#[verifier::external_body]
fn kvm_create_vm(kvm: &Kvm) -> (r: Option<VmFd>) {
    kvm.create_vm().ok()
}

/// A VM: its handle, its memory, its vCPUs and the configuration it was made from.
pub struct Vm {
    pub fd: VmFd,
    pub memory: VmMemory,
    pub cpus: VmCpu<VcpuFd>,
    pub config: VmConfig,
}

impl Vm {
    /// Creates the VM and its RAM of `vm_config.memory_size` bytes; no vCPU yet.
    /// The size is checked first: `InvalidSize` comes exactly for a size that
    /// is zero, above the RAM ceiling or beyond the host's address width.
    pub fn new(kvm: &Kvm, vm_config: VmConfig) -> (r: Result<Self>)
        ensures
            !(valid_ram_size(vm_config.memory_size as int) && vm_config.memory_size
                <= usize::MAX) <==> r == Err::<Self, Error>(Error::InvalidSize),
            r is Err ==> r == Err::<Self, Error>(Error::InvalidSize) || r == Err::<Self, Error>(
                Error::VmCreation,
            ) || r == Err::<Self, Error>(Error::GuestMemory),
            r is Ok ==> {
                let vm = r->Ok_0;
                &&& guest_ranges(vm.memory.guest_mem) == seq![
                    (VmLayout::DRAM_MEM_START, vm_config.memory_size),
                ]
                &&& vm.cpus.wf()
                &&& vm.cpus@ == BringUp::<VcpuFd>::start(0, 0, 0)
                &&& vm.config == vm_config
            },
    {
        if vm_config.memory_size == 0 || vm_config.memory_size > VmLayout::DRAM_MEM_MAX_SIZE
            || vm_config.memory_size > usize::MAX as u64 {
            return Err(Error::InvalidSize);
        }
        let vm_fd = match kvm_create_vm(kvm) {
            Some(fd) => fd,
            None => return Err(Error::VmCreation),
        };
        let vm_memory = VmMemory::new(vm_config.memory_size as usize)?;
        let vm_cpu = VmCpu::new()?;
        Ok(Vm { fd: vm_fd, memory: vm_memory, cpus: vm_cpu, config: vm_config })
    }
}

} // verus!
