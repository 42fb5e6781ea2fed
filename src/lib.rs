//! Bring-up core of a minimal virtual-machine monitor for 64-bit ARM guests:
//! the guest address map and RAM, the encoding of ARM64 register identifiers,
//! the boot register state of each vCPU, and the step-by-step bring-up of the
//! vCPUs against the hypervisor's control interface.
pub mod config;
pub mod cpu;
pub mod error;
pub mod layout;
pub mod memory;
pub mod regs;
pub mod vm;
pub mod vmm;
