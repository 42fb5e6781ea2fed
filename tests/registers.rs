use arm_vmm::cpu::{vcpu_features, VcpuInit, KVM_ARM_VCPU_POWER_OFF, KVM_ARM_VCPU_PSCI_0_2};
use arm_vmm::regs::{
    boot_pstate, core_reg_id, mpidr_el1, setup_regs, sys_reg_id, CoreRegister, RegisterWrite,
    PSTATE_FAULT_BITS_64,
};

#[test]
fn core_register_ids_match_kvm_numbering() {
    assert_eq!(core_reg_id(CoreRegister::Gpr(0)), 0x6030_0000_0010_0000);
    assert_eq!(core_reg_id(CoreRegister::Gpr(30)), 0x6030_0000_0010_003c);
    assert_eq!(core_reg_id(CoreRegister::Sp), 0x6030_0000_0010_003e);
    assert_eq!(core_reg_id(CoreRegister::Pc), 0x6030_0000_0010_0040);
    assert_eq!(core_reg_id(CoreRegister::Pstate), 0x6030_0000_0010_0042);
}

#[test]
fn register_ids_are_deterministic_and_distinct() {
    assert_eq!(core_reg_id(CoreRegister::Pc), core_reg_id(CoreRegister::Pc));
    assert_eq!(sys_reg_id(3, 0, 0, 0, 5), sys_reg_id(3, 0, 0, 0, 5));
    let pc = core_reg_id(CoreRegister::Pc);
    let pstate = core_reg_id(CoreRegister::Pstate);
    let x0 = core_reg_id(CoreRegister::Gpr(0));
    assert_ne!(pc, pstate);
    assert_ne!(pc, x0);
    assert_ne!(pstate, x0);
}

#[test]
fn affinity_register_id() {
    assert_eq!(sys_reg_id(3, 0, 0, 0, 5), 0x6030_0000_0013_c005);
    assert_eq!(mpidr_el1(), 0x6030_0000_0013_c005);
    // Fields are masked into their slots.
    assert_eq!(sys_reg_id(3, 7, 15, 15, 7), 0x6030_0000_0013_ffff);
    assert_eq!(sys_reg_id(0, 0, 0, 0, 0), 0x6030_0000_0013_0000);
}

#[test]
fn boot_processor_state_is_el1h_with_exceptions_masked() {
    assert_eq!(boot_pstate(), 0x3c5);
    assert_eq!(boot_pstate(), PSTATE_FAULT_BITS_64);
    assert_eq!(boot_pstate(), boot_pstate());
}

#[test]
fn boot_vcpu_gets_pstate_pc_and_fdt_pointer() {
    let w = setup_regs(0, 0x8020_0000, 0x8000_0000);
    assert_eq!(
        w,
        vec![
            RegisterWrite { id: 0x6030_0000_0010_0042, value: 0x3c5 },
            RegisterWrite { id: 0x6030_0000_0010_0040, value: 0x8020_0000 },
            RegisterWrite { id: 0x6030_0000_0010_0000, value: 0x8000_0000 },
        ]
    );
}

#[test]
fn secondary_vcpu_gets_pstate_only() {
    for id in [1u8, 2, 7, 255] {
        let w = setup_regs(id, 0x8020_0000, 0x8000_0000);
        assert_eq!(w, vec![RegisterWrite { id: 0x6030_0000_0010_0042, value: 0x3c5 }]);
    }
}

#[test]
fn features_enable_psci_and_power_off_secondaries() {
    let preferred = VcpuInit { target: 5, features: [0x10, 1, 2, 3, 4, 5, 6] };
    let boot = vcpu_features(preferred, 0);
    assert_eq!(boot.target, 5);
    assert_eq!(boot.features, [0x10 | (1 << KVM_ARM_VCPU_PSCI_0_2), 1, 2, 3, 4, 5, 6]);
    assert_eq!(boot.features[0] & (1 << KVM_ARM_VCPU_POWER_OFF), 0);
    let secondary = vcpu_features(preferred, 3);
    assert_eq!(secondary.features, [0x15, 1, 2, 3, 4, 5, 6]);
}
