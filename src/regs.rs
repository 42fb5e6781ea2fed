//! Identifiers of ARM64 registers as the KVM control interface numbers them,
//! and the register state a vCPU must have when it first runs.
use vstd::prelude::*;

verus! {

/// Architecture tag of every ARM64 register identifier.
pub const KVM_REG_ARM64: u64 = 0x6000_0000_0000_0000;
/// Size class of a 64-bit register.
pub const KVM_REG_SIZE_U64: u64 = 0x0030_0000_0000_0000;
/// Group tag of the core registers (`struct kvm_regs`).
pub const KVM_REG_ARM_CORE: u64 = 0x0010_0000;
/// Group tag of the system registers.
pub const KVM_REG_ARM64_SYSREG: u64 = 0x0013_0000;

pub const KVM_REG_ARM64_SYSREG_OP0_SHIFT: u64 = 14;
pub const KVM_REG_ARM64_SYSREG_OP0_MASK: u64 = 0xc000;
pub const KVM_REG_ARM64_SYSREG_OP1_SHIFT: u64 = 11;
pub const KVM_REG_ARM64_SYSREG_OP1_MASK: u64 = 0x3800;
pub const KVM_REG_ARM64_SYSREG_CRN_SHIFT: u64 = 7;
pub const KVM_REG_ARM64_SYSREG_CRN_MASK: u64 = 0x0780;
pub const KVM_REG_ARM64_SYSREG_CRM_SHIFT: u64 = 3;
pub const KVM_REG_ARM64_SYSREG_CRM_MASK: u64 = 0x0078;
pub const KVM_REG_ARM64_SYSREG_OP2_SHIFT: u64 = 0;
pub const KVM_REG_ARM64_SYSREG_OP2_MASK: u64 = 0x0007;

// Processor state bits, as in the kernel's `arch/arm64/include/uapi/asm/ptrace.h`.
pub const PSR_MODE_EL1H: u64 = 0x0000_0005;
pub const PSR_F_BIT: u64 = 0x0000_0040;
pub const PSR_I_BIT: u64 = 0x0000_0080;
pub const PSR_A_BIT: u64 = 0x0000_0100;
pub const PSR_D_BIT: u64 = 0x0000_0200;
/// EL1 with its own stack pointer, FIQ, IRQ, SError and Debug masked.
pub const PSTATE_FAULT_BITS_64: u64 = PSR_MODE_EL1H | PSR_A_BIT | PSR_F_BIT | PSR_I_BIT
    | PSR_D_BIT;

/// Number of general-purpose registers in `struct user_pt_regs`.
pub const USER_PT_REGS_GPRS: u64 = 31;
/// Width in bytes of every field of `struct user_pt_regs`.
pub const USER_PT_REGS_FIELD_BYTES: u64 = 8;
/// The core register index counts 32-bit words of `struct kvm_regs`.
pub const CORE_REG_INDEX_UNIT: u64 = 4;

/// A field of `struct user_pt_regs`, the head of `struct kvm_regs`:
/// `regs[31]`, then `sp`, `pc` and `pstate`, each 64 bits wide.
#[derive(Debug, Clone, Copy, PartialEq, Eq, Structural)]
pub enum CoreRegister {
    /// `regs[n]`, general-purpose register `n` (`n < 31`).
    Gpr(u8),
    Sp,
    Pc,
    Pstate,
}

impl CoreRegister {
    pub open spec fn valid(self) -> bool {
        match self {
            CoreRegister::Gpr(n) => n < USER_PT_REGS_GPRS,
            _ => true,
        }
    }

    /// Byte offset of the field within `struct user_pt_regs`.
    pub open spec fn offset(self) -> nat {
        match self {
            CoreRegister::Gpr(n) => (n * USER_PT_REGS_FIELD_BYTES) as nat,
            CoreRegister::Sp => (USER_PT_REGS_GPRS * USER_PT_REGS_FIELD_BYTES) as nat,
            CoreRegister::Pc => ((USER_PT_REGS_GPRS + 1) * USER_PT_REGS_FIELD_BYTES) as nat,
            CoreRegister::Pstate => ((USER_PT_REGS_GPRS + 2) * USER_PT_REGS_FIELD_BYTES) as nat,
        }
    }
}

/// Identifier of a core register: tag, size class and core group, with the
/// field's offset counted in 32-bit words as the index.
pub open spec fn core_reg_id_spec(r: CoreRegister) -> u64 {
    KVM_REG_ARM64 | KVM_REG_SIZE_U64 | KVM_REG_ARM_CORE | ((r.offset() / 4) as u64)
}

/// Identifier of the system register named by its five encoding fields.
pub open spec fn sys_reg_id_spec(op0: u8, op1: u8, crn: u8, crm: u8, op2: u8) -> u64 {
    KVM_REG_ARM64 | KVM_REG_SIZE_U64 | KVM_REG_ARM64_SYSREG
        | (((op0 as u64) << KVM_REG_ARM64_SYSREG_OP0_SHIFT) & KVM_REG_ARM64_SYSREG_OP0_MASK)
        | (((op1 as u64) << KVM_REG_ARM64_SYSREG_OP1_SHIFT) & KVM_REG_ARM64_SYSREG_OP1_MASK)
        | (((crn as u64) << KVM_REG_ARM64_SYSREG_CRN_SHIFT) & KVM_REG_ARM64_SYSREG_CRN_MASK)
        | (((crm as u64) << KVM_REG_ARM64_SYSREG_CRM_SHIFT) & KVM_REG_ARM64_SYSREG_CRM_MASK)
        | (((op2 as u64) << KVM_REG_ARM64_SYSREG_OP2_SHIFT) & KVM_REG_ARM64_SYSREG_OP2_MASK)
}

/// Distinct core registers have distinct identifiers.
pub proof fn lemma_core_reg_id_injective(a: CoreRegister, b: CoreRegister)
    requires
        a.valid(),
        b.valid(),
        a != b,
    ensures
        core_reg_id_spec(a) != core_reg_id_spec(b),
{
    let x = (a.offset() / 4) as u64;
    let y = (b.offset() / 4) as u64;
    assert(x < 0x100 && y < 0x100 && x != y);
    let tag = KVM_REG_ARM64 | KVM_REG_SIZE_U64 | KVM_REG_ARM_CORE;
    assert((tag | x) & 0xff == x && (tag | y) & 0xff == y) by (bit_vector)
        requires
            x < 0x100,
            y < 0x100,
            tag == KVM_REG_ARM64 | KVM_REG_SIZE_U64 | KVM_REG_ARM_CORE,
    ;
}

/// The program counter, the processor state and `regs[0]`, the three core
/// registers of the boot protocol, have pairwise distinct identifiers.
pub proof fn lemma_boot_core_reg_ids_distinct()
    ensures
        core_reg_id_spec(CoreRegister::Pc) != core_reg_id_spec(CoreRegister::Pstate),
        core_reg_id_spec(CoreRegister::Pc) != core_reg_id_spec(CoreRegister::Gpr(0)),
        core_reg_id_spec(CoreRegister::Pstate) != core_reg_id_spec(CoreRegister::Gpr(0)),
{
    lemma_core_reg_id_injective(CoreRegister::Pc, CoreRegister::Pstate);
    lemma_core_reg_id_injective(CoreRegister::Pc, CoreRegister::Gpr(0));
    lemma_core_reg_id_injective(CoreRegister::Pstate, CoreRegister::Gpr(0));
}

/// Identifier of a core register.
pub fn core_reg_id(r: CoreRegister) -> (id: u64)
    requires
        r.valid(),
    ensures
        id == core_reg_id_spec(r),
{
    let offset: u64 = match r {
        CoreRegister::Gpr(n) => n as u64 * USER_PT_REGS_FIELD_BYTES,
        CoreRegister::Sp => USER_PT_REGS_GPRS * USER_PT_REGS_FIELD_BYTES,
        CoreRegister::Pc => (USER_PT_REGS_GPRS + 1) * USER_PT_REGS_FIELD_BYTES,
        CoreRegister::Pstate => (USER_PT_REGS_GPRS + 2) * USER_PT_REGS_FIELD_BYTES,
    };
    KVM_REG_ARM64 | KVM_REG_SIZE_U64 | KVM_REG_ARM_CORE | (offset / CORE_REG_INDEX_UNIT)
}

/// Identifier of a system register from its `op0, op1, CRn, CRm, op2` encoding.
pub fn sys_reg_id(op0: u8, op1: u8, crn: u8, crm: u8, op2: u8) -> (id: u64)
    ensures
        id == sys_reg_id_spec(op0, op1, crn, crm, op2),
{
    KVM_REG_ARM64 | KVM_REG_SIZE_U64 | KVM_REG_ARM64_SYSREG
        | (((op0 as u64) << KVM_REG_ARM64_SYSREG_OP0_SHIFT) & KVM_REG_ARM64_SYSREG_OP0_MASK)
        | (((op1 as u64) << KVM_REG_ARM64_SYSREG_OP1_SHIFT) & KVM_REG_ARM64_SYSREG_OP1_MASK)
        | (((crn as u64) << KVM_REG_ARM64_SYSREG_CRN_SHIFT) & KVM_REG_ARM64_SYSREG_CRN_MASK)
        | (((crm as u64) << KVM_REG_ARM64_SYSREG_CRM_SHIFT) & KVM_REG_ARM64_SYSREG_CRM_MASK)
        | (((op2 as u64) << KVM_REG_ARM64_SYSREG_OP2_SHIFT) & KVM_REG_ARM64_SYSREG_OP2_MASK)
}

/// Identifier of `MPIDR_EL1`, the multiprocessor affinity register
/// (`op0 = 3, op1 = 0, CRn = 0, CRm = 0, op2 = 5`).
pub open spec fn mpidr_el1_spec() -> u64 {
    sys_reg_id_spec(3, 0, 0, 0, 5)
}

/// Identifier of `MPIDR_EL1`.
pub fn mpidr_el1() -> (id: u64)
    ensures
        id == mpidr_el1_spec(),
        id == 0x6030_0000_0013_c005,
{
    let id = sys_reg_id(3, 0, 0, 0, 5);
    assert(id == 0x6030_0000_0013_c005u64) by (bit_vector)
        requires
            id == sys_reg_id_spec(3, 0, 0, 0, 5),
    ;
    id
}

/// Processor state of every vCPU at its first instruction.
pub fn boot_pstate() -> (p: u64)
    ensures
        p == PSTATE_FAULT_BITS_64,
        p == 0x3c5,
        p & 0xf == PSR_MODE_EL1H,
        p & PSR_F_BIT != 0,
        p & PSR_I_BIT != 0,
        p & PSR_A_BIT != 0,
        p & PSR_D_BIT != 0,
{
    let p = PSTATE_FAULT_BITS_64;
    assert(p == 0x3c5 && p & 0xf == 5 && p & 0x40 != 0 && p & 0x80 != 0 && p & 0x100 != 0 && p
        & 0x200 != 0) by (bit_vector)
        requires
            p == PSR_MODE_EL1H | PSR_A_BIT | PSR_F_BIT | PSR_I_BIT | PSR_D_BIT,
    ;
    p
}

/// One register write of the boot sequence.
#[derive(Debug, Clone, Copy, PartialEq, Eq, Structural)]
pub struct RegisterWrite {
    pub id: u64,
    pub value: u64,
}

/// The register writes that put vCPU `cpu_id` into its boot state, in order:
/// the processor state for every vCPU, then for the boot vCPU alone the program
/// counter (`boot_ip`) and `regs[0]`, which carries the device tree address.
/// The other vCPUs stay powered off until the guest wakes them.
pub open spec fn boot_register_writes(cpu_id: u8, boot_ip: u64, fdt_addr: u64) -> Seq<
    RegisterWrite,
> {
    let pstate = RegisterWrite {
        id: core_reg_id_spec(CoreRegister::Pstate),
        value: PSTATE_FAULT_BITS_64,
    };
    if cpu_id == 0 {
        seq![
            pstate,
            RegisterWrite { id: core_reg_id_spec(CoreRegister::Pc), value: boot_ip },
            RegisterWrite { id: core_reg_id_spec(CoreRegister::Gpr(0)), value: fdt_addr },
        ]
    } else {
        seq![pstate]
    }
}

/// The core register writes of vCPU `cpu_id`, in the order they are made.
pub fn setup_regs(cpu_id: u8, boot_ip: u64, fdt_addr: u64) -> (w: Vec<RegisterWrite>)
    ensures
        w@ == boot_register_writes(cpu_id, boot_ip, fdt_addr),
{
    let pstate = RegisterWrite { id: core_reg_id(CoreRegister::Pstate), value: boot_pstate() };
    if cpu_id == 0 {
        let pc = RegisterWrite { id: core_reg_id(CoreRegister::Pc), value: boot_ip };
        let fdt = RegisterWrite { id: core_reg_id(CoreRegister::Gpr(0)), value: fdt_addr };
        vec![pstate, pc, fdt]
    } else {
        vec![pstate]
    }
}

/// The boot vCPU gets exactly three writes: the processor state, then the
/// program counter set to the entry address, then `regs[0]`.
pub proof fn lemma_boot_vcpu_writes(boot_ip: u64, fdt_addr: u64)
    ensures
        boot_register_writes(0, boot_ip, fdt_addr).len() == 3,
        boot_register_writes(0, boot_ip, fdt_addr)[0] == (RegisterWrite {
            id: core_reg_id_spec(CoreRegister::Pstate),
            value: PSTATE_FAULT_BITS_64,
        }),
        boot_register_writes(0, boot_ip, fdt_addr)[1] == (RegisterWrite {
            id: core_reg_id_spec(CoreRegister::Pc),
            value: boot_ip,
        }),
        boot_register_writes(0, boot_ip, fdt_addr)[2].id == core_reg_id_spec(CoreRegister::Gpr(0)),
{
}

/// Every other vCPU gets exactly one write, of the processor state: never the
/// program counter, never `regs[0]`.
pub proof fn lemma_secondary_vcpu_writes(cpu_id: u8, boot_ip: u64, fdt_addr: u64)
    requires
        cpu_id > 0,
    ensures
        boot_register_writes(cpu_id, boot_ip, fdt_addr) == seq![
            RegisterWrite { id: core_reg_id_spec(CoreRegister::Pstate), value: PSTATE_FAULT_BITS_64 },
        ],
        forall|i: int|
            0 <= i < boot_register_writes(cpu_id, boot_ip, fdt_addr).len() ==> {
                let id = #[trigger] boot_register_writes(cpu_id, boot_ip, fdt_addr)[i].id;
                id != core_reg_id_spec(CoreRegister::Pc) && id != core_reg_id_spec(
                    CoreRegister::Gpr(0),
                )
            },
{
    lemma_boot_core_reg_ids_distinct();
}

} // verus!
