use arm_vmm::cpu::{ControlReply, VcpuInit, VcpuRequest, VmCpu};
use arm_vmm::error::Error;
use arm_vmm::memory::VmMemory;
use arm_vmm::regs::{core_reg_id, CoreRegister, PSTATE_FAULT_BITS_64};

const ENTRY: u64 = 0x8020_0000;

/// Answers every request as a well-behaved hypervisor would, except the ones
/// `refuse` picks; returns the requests in the order they came.
fn drive(cpus: &mut VmCpu<u32>, refuse: &dyn Fn(&VcpuRequest) -> bool) -> Vec<VcpuRequest> {
    let mut seen = Vec::new();
    while let Some(req) = cpus.request() {
        seen.push(req);
        let reply = if refuse(&req) {
            ControlReply::Failed
        } else {
            match req {
                VcpuRequest::Create { index } => ControlReply::Created(100 + index as u32),
                VcpuRequest::PreferredTarget { .. } => {
                    ControlReply::Target(VcpuInit { target: 5, features: [0; 7] })
                }
                VcpuRequest::Init { .. } => ControlReply::Done,
                VcpuRequest::SetRegister { .. } => ControlReply::Done,
                VcpuRequest::GetRegister { index, .. } => ControlReply::Value(0x8000_0000 | index as u64),
            }
        };
        cpus.advance(reply);
    }
    seen
}

fn fresh(count: u8, mem_mib: usize) -> VmCpu<u32> {
    let mem = VmMemory::new(mem_mib << 20).unwrap();
    let mut cpus = VmCpu::new().unwrap();
    cpus.create_vcpus(count, ENTRY, &mem.guest_mem);
    cpus
}

fn writes_of(seen: &[VcpuRequest], vcpu: u8) -> Vec<(u64, u64)> {
    seen.iter()
        .filter_map(|r| match r {
            VcpuRequest::SetRegister { index, write } if *index == vcpu => Some((write.id, write.value)),
            _ => None,
        })
        .collect()
}

fn init_of(seen: &[VcpuRequest], vcpu: u8) -> VcpuInit {
    seen.iter()
        .find_map(|r| match r {
            VcpuRequest::Init { index, init } if *index == vcpu => Some(*init),
            _ => None,
        })
        .unwrap()
}

fn check_full_bring_up(n: u8) {
    let mut cpus = fresh(n, 128);
    let seen = drive(&mut cpus, &|_| false);
    assert!(matches!(cpus.outcome(), Some(Ok(()))));
    let v = cpus.vcpus();
    assert_eq!(v.len(), n as usize);
    for (i, cpu) in v.iter().enumerate() {
        assert_eq!(cpu.id as usize, i);
        assert_eq!(cpu.fd, 100 + i as u32);
        assert_eq!(cpu.mpidr, 0x8000_0000 | i as u64);
    }
    // Creation order is ascending and each vCPU is finished before the next.
    let created: Vec<u8> = seen
        .iter()
        .filter_map(|r| match r {
            VcpuRequest::Create { index } => Some(*index),
            _ => None,
        })
        .collect();
    assert_eq!(created, (0..n).collect::<Vec<u8>>());
    // Create, target, init, three writes and the affinity read for the boot
    // vCPU; the same with a single write for each other vCPU.
    assert_eq!(seen.len(), 7 + 5 * (n as usize - 1));
}

#[test]
fn one_vcpu_is_brought_up() {
    check_full_bring_up(1);
}

#[test]
fn four_vcpus_are_brought_up_in_order() {
    check_full_bring_up(4);
}

#[test]
fn eight_vcpus_are_brought_up_in_order() {
    check_full_bring_up(8);
}

#[test]
fn zero_vcpus_finish_at_once() {
    let mut cpus = fresh(0, 16);
    assert!(drive(&mut cpus, &|_| false).is_empty());
    assert!(matches!(cpus.outcome(), Some(Ok(()))));
    assert!(cpus.vcpus().is_empty());
}

#[test]
fn boot_vcpu_writes_pstate_pc_then_fdt_pointer() {
    let mut cpus = fresh(1, 128);
    let seen = drive(&mut cpus, &|_| false);
    let fdt = 0x8000_0000 + (128u64 << 20) - 0x20_0000;
    assert_eq!(
        writes_of(&seen, 0),
        vec![
            (core_reg_id(CoreRegister::Pstate), PSTATE_FAULT_BITS_64),
            (core_reg_id(CoreRegister::Pc), ENTRY),
            (core_reg_id(CoreRegister::Gpr(0)), fdt),
        ]
    );
    assert_eq!(init_of(&seen, 0).features[0], 1 << 2);
}

#[test]
fn secondary_vcpu_writes_pstate_only_and_starts_powered_off() {
    let mut cpus = fresh(3, 128);
    let seen = drive(&mut cpus, &|_| false);
    for i in 1..3u8 {
        assert_eq!(writes_of(&seen, i), vec![(core_reg_id(CoreRegister::Pstate), 0x3c5)]);
        assert_eq!(init_of(&seen, i).features[0], (1 << 2) | 1);
        assert_eq!(init_of(&seen, i).target, 5);
    }
}

#[test]
fn refused_creation_keeps_no_vcpu() {
    let mut cpus = fresh(8, 16);
    let seen = drive(&mut cpus, &|r| matches!(r, VcpuRequest::Create { index: 3 }));
    assert!(matches!(cpus.outcome(), Some(Err(Error::VcpuCreation))));
    assert!(cpus.vcpus().is_empty());
    let created: Vec<u8> = seen
        .iter()
        .filter_map(|r| match r {
            VcpuRequest::Create { index } => Some(*index),
            _ => None,
        })
        .collect();
    assert_eq!(created, vec![0, 1, 2, 3]);
    assert!(matches!(seen.last(), Some(VcpuRequest::Create { index: 3 })));
}

#[test]
fn refused_register_write_aborts_with_register_access() {
    let mut cpus = fresh(2, 16);
    let pc = core_reg_id(CoreRegister::Pc);
    drive(&mut cpus, &|r| matches!(r, VcpuRequest::SetRegister { write, .. } if write.id == pc));
    assert!(matches!(cpus.outcome(), Some(Err(Error::RegisterAccess))));
    assert!(cpus.vcpus().is_empty());
}

#[test]
fn refused_affinity_read_aborts_with_register_access() {
    let mut cpus = fresh(2, 16);
    drive(&mut cpus, &|r| matches!(r, VcpuRequest::GetRegister { index: 1, .. }));
    assert!(matches!(cpus.outcome(), Some(Err(Error::RegisterAccess))));
}

#[test]
fn refused_init_aborts_with_vcpu_creation() {
    let mut cpus = fresh(2, 16);
    drive(&mut cpus, &|r| matches!(r, VcpuRequest::Init { .. }));
    assert!(matches!(cpus.outcome(), Some(Err(Error::VcpuCreation))));
}

#[test]
fn two_vcpu_boot_of_128_mib() {
    let mut cpus = fresh(2, 128);
    let seen = drive(&mut cpus, &|_| false);
    assert!(matches!(cpus.outcome(), Some(Ok(()))));
    assert_eq!(cpus.vcpus().len(), 2);
    assert!(writes_of(&seen, 0).contains(&(core_reg_id(CoreRegister::Pc), ENTRY)));
    assert_eq!(writes_of(&seen, 1), vec![(core_reg_id(CoreRegister::Pstate), 0x3c5)]);
    assert_ne!(init_of(&seen, 1).features[0] & 1, 0);
    let handed = cpus.take_vcpus();
    assert_eq!(handed.len(), 2);
    assert!(cpus.vcpus().is_empty());
}
