use std::path::PathBuf;
use vstd::prelude::*;

verus! {

#[verifier::external_type_specification]
#[verifier::external_body]
pub struct ExPathBuf(PathBuf);

/// What a VM is asked to be: its vCPUs, its memory and its images.
pub struct VmConfig {
    pub boot_vcpus: u8,
    pub max_vcpus: u8,
    /// Guest RAM size in bytes.
    pub memory_size: u64,
    pub kernel_path: PathBuf,
    pub disk_path: PathBuf,
}

impl VmConfig {
    /// A configuration that boots `cpus` vCPUs, no more, with `mem` bytes of RAM.
    pub fn new(cpus: u8, mem: u64, kernel_path: PathBuf, disk_path: PathBuf) -> (r: Self)
        ensures
            r.boot_vcpus == cpus,
            r.max_vcpus == cpus,
            r.memory_size == mem,
            r.kernel_path == kernel_path,
            r.disk_path == disk_path,
    {
        VmConfig { boot_vcpus: cpus, max_vcpus: cpus, memory_size: mem, kernel_path, disk_path }
    }
}

} // verus!
