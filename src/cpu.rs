//! vCPU creation and initialization, driven one control-interface call at a time.
use crate::error::{Error, Result};
use crate::layout::{fdt_addr_spec, VmLayout};
use crate::memory::guest_ranges;
use crate::regs::{
    boot_register_writes, core_reg_id_spec, mpidr_el1, mpidr_el1_spec, setup_regs, CoreRegister,
    RegisterWrite, PSTATE_FAULT_BITS_64,
};
use kvm_ioctls::{VcpuFd, VmFd};
use vm_memory::GuestMemoryMmap;
use vstd::array::spec_array_update;
use vstd::prelude::*;

verus! {

#[verifier::external_type_specification]
#[verifier::external_body]
pub struct ExVmFd(VmFd);

#[verifier::external_type_specification]
#[verifier::external_body]
pub struct ExVcpuFd(VcpuFd);

/// Relies on `VmFd::create_vcpu`: asks the hypervisor for vCPU `id`; `None` when
/// it refuses (the cause is not kept: every refusal ends the bring-up alike).
#[verifier::external_body]
fn kvm_create_vcpu(vm_fd: &VmFd, id: u64) -> (r: Option<VcpuFd>) {
    vm_fd.create_vcpu(id).ok()
}

/// Feature bit: the vCPU starts powered off.
pub const KVM_ARM_VCPU_POWER_OFF: u32 = 0;
/// Feature bit: the guest may use PSCI 0.2 power management calls.
pub const KVM_ARM_VCPU_PSCI_0_2: u32 = 2;

/// A vCPU initialization request (`struct kvm_vcpu_init`): the target CPU type
/// and the feature bitmap.
#[derive(Debug, Clone, Copy)]
pub struct VcpuInit {
    pub target: u32,
    pub features: [u32; 7],
}

/// The first feature word that vCPU `id` asks for: the preferred word with
/// PSCI 0.2 enabled, and for every vCPU but the boot one, powered off at start.
pub open spec fn features_word(preferred: u32, id: u8) -> u32 {
    if id > 0 {
        preferred | (1u32 << KVM_ARM_VCPU_PSCI_0_2) | (1u32 << KVM_ARM_VCPU_POWER_OFF)
    } else {
        preferred | (1u32 << KVM_ARM_VCPU_PSCI_0_2)
    }
}

/// The initialization request of vCPU `id`: the preferred target and features,
/// with PSCI 0.2, and powered off at start for every vCPU but the boot one.
pub fn vcpu_features(preferred: VcpuInit, id: u8) -> (r: VcpuInit)
    ensures
        r == vcpu_init_spec(preferred, id),
        r.target == preferred.target,
        r.features@ == preferred.features@.update(0, features_word(preferred.features@[0], id)),
{
    let mut word = preferred.features[0] | (1u32 << KVM_ARM_VCPU_PSCI_0_2);
    if id > 0 {
        word = word | (1u32 << KVM_ARM_VCPU_POWER_OFF);
    }
    let mut features = preferred.features;
    features[0] = word;
    assert(features =~= spec_array_update(preferred.features, 0, word));
    VcpuInit { target: preferred.target, features }
}

/// The initialization request of vCPU `id`, from the preferred one.
pub open spec fn vcpu_init_spec(preferred: VcpuInit, id: u8) -> VcpuInit {
    VcpuInit {
        target: preferred.target,
        features: spec_array_update(preferred.features, 0, features_word(preferred.features@[0], id)),
    }
}

/// Every vCPU but the boot one asks to start powered off; the boot vCPU's
/// power-off bit is the preferred one. Every vCPU asks for PSCI 0.2.
pub proof fn lemma_power_off_feature(preferred: u32, id: u8)
    ensures
        id > 0 ==> features_word(preferred, id) & (1u32 << KVM_ARM_VCPU_POWER_OFF) != 0,
        id == 0 ==> features_word(preferred, id) & (1u32 << KVM_ARM_VCPU_POWER_OFF) == preferred
            & (1u32 << KVM_ARM_VCPU_POWER_OFF),
        features_word(preferred, id) & (1u32 << KVM_ARM_VCPU_PSCI_0_2) != 0,
{
    assert((preferred | 4u32 | 1u32) & 1u32 != 0 && (preferred | 4u32) & 1u32 == preferred & 1u32
        && (preferred | 4u32 | 1u32) & 4u32 != 0 && (preferred | 4u32) & 4u32 != 0) by (bit_vector);
    assert(1u32 << KVM_ARM_VCPU_POWER_OFF == 1u32 && 1u32 << KVM_ARM_VCPU_PSCI_0_2 == 4u32)
        by (bit_vector);
}

/// A vCPU: its index (0 is the boot vCPU), its execution handle, and its
/// multiprocessor affinity value, read back once it is initialized.
pub struct Vcpu<H> {
    pub fd: H,
    pub id: u8,
    pub mpidr: u64,
}

impl Vcpu<VcpuFd> {
    /// Asks the hypervisor for vCPU `id`.
    pub fn new(id: u8, vm_fd: &VmFd) -> (r: Result<Self>)
        ensures
            r is Ok ==> r->Ok_0.id == id && r->Ok_0.mpidr == 0,
            r is Err ==> r == Err::<Self, Error>(Error::VcpuCreation),
    {
        match kvm_create_vcpu(vm_fd, id as u64) {
            Some(fd) => Ok(Vcpu { fd, id, mpidr: 0 }),
            None => Err(Error::VcpuCreation),
        }
    }
}

/// Where the bring-up of the vCPUs stands; `index` is the vCPU at hand.
#[derive(Debug, Clone, Copy)]
pub enum Stage {
    /// vCPU `index` is to be created.
    Create,
    /// The preferred initialization of vCPU `index` is to be read.
    Target,
    /// vCPU `index` is to be initialized with `init`.
    Init { init: VcpuInit },
    /// Write number `next` of the boot register writes of vCPU `index` is due.
    Registers { next: usize },
    /// The affinity register of vCPU `index` is to be read.
    Affinity,
    /// Every vCPU is initialized.
    Finished,
    /// A call was refused; the vCPUs created so far were dropped.
    Aborted { error: Error },
}

/// The next call the bring-up needs from the control interface.
#[derive(Debug, Clone, Copy)]
pub enum VcpuRequest {
    /// Create vCPU `index` and hand back its handle.
    Create { index: u8 },
    /// Read the preferred initialization for vCPU `index`.
    PreferredTarget { index: u8 },
    /// Initialize vCPU `index`.
    Init { index: u8, init: VcpuInit },
    /// Write one register of vCPU `index`.
    SetRegister { index: u8, write: RegisterWrite },
    /// Read one register of vCPU `index`.
    GetRegister { index: u8, id: u64 },
}

/// What the control interface answered to a request.
#[derive(Debug)]
pub enum ControlReply<H> {
    /// The vCPU was created, with this handle.
    Created(H),
    /// The preferred initialization.
    Target(VcpuInit),
    /// The call succeeded and returns nothing.
    Done,
    /// The register holds this value.
    Value(u64),
    /// The call was refused.
    Failed,
}

/// The bring-up as the contracts see it.
pub struct BringUp<H> {
    /// How many vCPUs are to be brought up.
    pub count: nat,
    /// Kernel entry address.
    pub entry: u64,
    /// Device tree address.
    pub fdt: u64,
    /// The vCPU at hand; `count` once all are done.
    pub index: nat,
    pub stage: Stage,
    /// The vCPUs created so far, in index order.
    pub cpus: Seq<Vcpu<H>>,
}

impl<H> BringUp<H> {
    /// A bring-up of `count` vCPUs that has made no call yet.
    pub open spec fn start(count: nat, entry: u64, fdt: u64) -> Self {
        BringUp {
            count,
            entry,
            fdt,
            index: 0,
            stage: if count == 0 {
                Stage::Finished
            } else {
                Stage::Create
            },
            cpus: Seq::empty(),
        }
    }

    /// The register writes of the vCPU at hand.
    pub open spec fn plan(self) -> Seq<RegisterWrite> {
        boot_register_writes(self.index as u8, self.entry, self.fdt)
    }

    pub open spec fn inv(self) -> bool {
        &&& self.count <= 255
        &&& self.index <= self.count
        &&& forall|i: int| 0 <= i < self.cpus.len() ==> (#[trigger] self.cpus[i]).id == i
        &&& match self.stage {
            Stage::Create => self.index < self.count && self.cpus.len() == self.index,
            Stage::Registers { next } => {
                &&& self.index < self.count
                &&& self.cpus.len() == self.index + 1
                &&& next < self.plan().len()
            },
            Stage::Finished => self.index == self.count && self.cpus.len() == self.count,
            Stage::Aborted { .. } => self.cpus.len() == 0,
            _ => self.index < self.count && self.cpus.len() == self.index + 1,
        }
    }

    /// The call that the bring-up needs next; `None` once it is over.
    pub open spec fn request(self) -> Option<VcpuRequest> {
        let index = self.index as u8;
        match self.stage {
            Stage::Create => Some(VcpuRequest::Create { index }),
            Stage::Target => Some(VcpuRequest::PreferredTarget { index }),
            Stage::Init { init } => Some(VcpuRequest::Init { index, init }),
            Stage::Registers { next } => Some(
                VcpuRequest::SetRegister { index, write: self.plan()[next as int] },
            ),
            Stage::Affinity => Some(VcpuRequest::GetRegister { index, id: mpidr_el1_spec() }),
            _ => None,
        }
    }

    /// The bring-up given up with `error`: no vCPU is kept.
    pub open spec fn abort(self, error: Error) -> Self {
        BringUp { stage: Stage::Aborted { error }, cpus: Seq::empty(), ..self }
    }

    /// The bring-up once `reply` answers its pending request.
    pub open spec fn step(self, reply: ControlReply<H>) -> Self {
        let index = self.index as u8;
        match self.stage {
            Stage::Create => match reply {
                ControlReply::Created(fd) => BringUp {
                    stage: Stage::Target,
                    cpus: self.cpus.push(Vcpu { fd, id: index, mpidr: 0 }),
                    ..self
                },
                _ => self.abort(Error::VcpuCreation),
            },
            Stage::Target => match reply {
                ControlReply::Target(preferred) => BringUp {
                    stage: Stage::Init { init: vcpu_init_spec(preferred, index) },
                    ..self
                },
                _ => self.abort(Error::VcpuCreation),
            },
            Stage::Init { .. } => match reply {
                ControlReply::Done => BringUp { stage: Stage::Registers { next: 0 }, ..self },
                _ => self.abort(Error::VcpuCreation),
            },
            Stage::Registers { next } => match reply {
                ControlReply::Done => if next + 1 < self.plan().len() {
                    BringUp { stage: Stage::Registers { next: (next + 1) as usize }, ..self }
                } else {
                    BringUp { stage: Stage::Affinity, ..self }
                },
                _ => self.abort(Error::RegisterAccess),
            },
            Stage::Affinity => match reply {
                ControlReply::Value(mpidr) => {
                    let cpu = self.cpus[self.index as int];
                    BringUp {
                        index: self.index + 1,
                        stage: if self.index + 1 < self.count {
                            Stage::Create
                        } else {
                            Stage::Finished
                        },
                        cpus: self.cpus.update(self.index as int, Vcpu { mpidr, ..cpu }),
                        ..self
                    }
                },
                _ => self.abort(Error::RegisterAccess),
            },
            _ => self,
        }
    }
}

/// The vCPUs of a VM, brought up one control-interface call at a time: the
/// caller performs each request and hands back the reply.
pub struct VmCpu<H> {
    cpus: Vec<Vcpu<H>>,
    cpu_count: usize,
    entry: u64,
    fdt: u64,
    index: u8,
    stage: Stage,
    plan: Vec<RegisterWrite>,
}

impl<H> View for VmCpu<H> {
    type V = BringUp<H>;

    closed spec fn view(&self) -> BringUp<H> {
        BringUp {
            count: self.cpu_count as nat,
            entry: self.entry,
            fdt: self.fdt,
            index: self.index as nat,
            stage: self.stage,
            cpus: self.cpus@,
        }
    }
}

impl<H> VmCpu<H> {
    pub closed spec fn wf(&self) -> bool {
        &&& self@.inv()
        &&& self.stage is Registers ==> self.plan@ == self@.plan()
    }

    /// A well-formed bring-up is consistent.
    pub proof fn lemma_wf_inv(&self)
        requires
            self.wf(),
        ensures
            self@.inv(),
    {
    }

    /// No vCPU, nothing to bring up.
    pub fn new() -> (r: Result<Self>)
        ensures
            r is Ok,
            r->Ok_0.wf(),
            r->Ok_0@ == BringUp::<H>::start(0, 0, 0),
    {
        Ok(VmCpu {
            cpus: Vec::new(),
            cpu_count: 0,
            entry: 0,
            fdt: 0,
            index: 0,
            stage: Stage::Finished,
            plan: Vec::new(),
        })
    }

    /// Starts over with the bring-up of `vcpu_count` vCPUs that will enter the
    /// kernel at `entry_addr`, with the device tree placed for `guest_mem`.
    pub fn create_vcpus(&mut self, vcpu_count: u8, entry_addr: u64, guest_mem: &GuestMemoryMmap)
        ensures
            final(self).wf(),
            final(self)@ == BringUp::<H>::start(
                vcpu_count as nat,
                entry_addr,
                fdt_addr_spec(guest_ranges(*guest_mem)),
            ),
    {
        self.cpus = Vec::new();
        self.cpu_count = vcpu_count as usize;
        self.entry = entry_addr;
        self.fdt = VmLayout::get_fdt_addr(guest_mem);
        self.index = 0;
        self.stage = if vcpu_count == 0 {
            Stage::Finished
        } else {
            Stage::Create
        };
        assert(self.cpus@ =~= Seq::<Vcpu<H>>::empty());
    }

    /// The call the bring-up needs next; `None` once it is over.
    pub fn request(&self) -> (r: Option<VcpuRequest>)
        requires
            self.wf(),
        ensures
            r == self@.request(),
    {
        let index = self.index;
        match self.stage {
            Stage::Create => Some(VcpuRequest::Create { index }),
            Stage::Target => Some(VcpuRequest::PreferredTarget { index }),
            Stage::Init { init } => Some(VcpuRequest::Init { index, init }),
            Stage::Registers { next } => Some(
                VcpuRequest::SetRegister { index, write: self.plan[next] },
            ),
            Stage::Affinity => Some(VcpuRequest::GetRegister { index, id: mpidr_el1() }),
            _ => None,
        }
    }

    fn abort(&mut self, error: Error)
        requires
            old(self).wf(),
        ensures
            final(self).wf(),
            final(self)@ == old(self)@.abort(error),
    {
        self.cpus = Vec::new();
        self.stage = Stage::Aborted { error };
        assert(self.cpus@ =~= Seq::<Vcpu<H>>::empty());
    }

    /// Takes the reply to the pending request and moves on.
    pub fn advance(&mut self, reply: ControlReply<H>)
        requires
            old(self).wf(),
        ensures
            final(self).wf(),
            final(self)@ == old(self)@.step(reply),
    {
        proof {
            lemma_step_inv(self@, reply);
        }
        let ghost expected = self@.step(reply);
        match self.stage {
            Stage::Create => match reply {
                ControlReply::Created(fd) => {
                    self.cpus.push(Vcpu { fd, id: self.index, mpidr: 0 });
                    self.stage = Stage::Target;
                },
                _ => self.abort(Error::VcpuCreation),
            },
            Stage::Target => match reply {
                ControlReply::Target(preferred) => {
                    self.stage = Stage::Init { init: vcpu_features(preferred, self.index) };
                },
                _ => self.abort(Error::VcpuCreation),
            },
            Stage::Init { .. } => match reply {
                ControlReply::Done => {
                    self.plan = setup_regs(self.index, self.entry, self.fdt);
                    self.stage = Stage::Registers { next: 0 };
                },
                _ => self.abort(Error::VcpuCreation),
            },
            Stage::Registers { next } => match reply {
                ControlReply::Done => {
                    if next + 1 < self.plan.len() {
                        self.stage = Stage::Registers { next: next + 1 };
                    } else {
                        self.stage = Stage::Affinity;
                    }
                },
                _ => self.abort(Error::RegisterAccess),
            },
            Stage::Affinity => match reply {
                ControlReply::Value(mpidr) => {
                    match self.cpus.pop() {
                        Some(cpu) => {
                            self.cpus.push(Vcpu { fd: cpu.fd, id: cpu.id, mpidr });
                        },
                        None => {},
                    }
                    self.index = self.index + 1;
                    if (self.index as usize) < self.cpu_count {
                        self.stage = Stage::Create;
                    } else {
                        self.stage = Stage::Finished;
                    }
                    assert(self.cpus@ =~= expected.cpus);
                },
                _ => self.abort(Error::RegisterAccess),
            },
            _ => {},
        }
    }

    /// How the bring-up ended: `None` while calls are pending.
    pub fn outcome(&self) -> (r: Option<Result<()>>)
        requires
            self.wf(),
        ensures
            r == match self@.stage {
                Stage::Finished => Some(Ok::<(), Error>(())),
                Stage::Aborted { error } => Some(Err::<(), Error>(error)),
                _ => None::<Result<()>>,
            },
    {
        match self.stage {
            Stage::Finished => Some(Ok(())),
            Stage::Aborted { error } => Some(Err(error)),
            _ => None,
        }
    }

    /// The vCPUs created so far, in index order.
    pub fn vcpus(&self) -> (r: &Vec<Vcpu<H>>)
        ensures
            r@ == self@.cpus,
    {
        &self.cpus
    }

    /// Hands the vCPUs over, to run them; no bring-up is left behind.
    pub fn take_vcpus(&mut self) -> (r: Vec<Vcpu<H>>)
        ensures
            r@ == old(self)@.cpus,
            final(self).wf(),
            final(self)@ == BringUp::<H>::start(0, old(self)@.entry, old(self)@.fdt),
    {
        let mut cpus = Vec::new();
        core::mem::swap(&mut cpus, &mut self.cpus);
        self.cpu_count = 0;
        self.index = 0;
        self.stage = Stage::Finished;
        assert(self.cpus@ =~= Seq::<Vcpu<H>>::empty());
        cpus
    }
}

/// The bring-up after answering `replies`, one per request, in order.
pub open spec fn run<H>(s: BringUp<H>, replies: Seq<ControlReply<H>>) -> BringUp<H>
    decreases replies.len(),
{
    if replies.len() == 0 {
        s
    } else {
        run(s.step(replies[0]), replies.drop_first())
    }
}

/// The requests a bring-up makes while `replies` answer them, in order.
pub open spec fn requests<H>(s: BringUp<H>, replies: Seq<ControlReply<H>>) -> Seq<
    Option<VcpuRequest>,
>
    decreases replies.len(),
{
    if replies.len() == 0 {
        Seq::empty()
    } else {
        seq![s.request()] + requests(s.step(replies[0]), replies.drop_first())
    }
}

/// `n` successful answers.
pub open spec fn all_done<H>(n: nat) -> Seq<ControlReply<H>> {
    Seq::new(n, |_i: int| ControlReply::<H>::Done)
}

/// The register writes of vCPU `index`, as the requests that make them.
pub open spec fn write_requests(index: u8, writes: Seq<RegisterWrite>) -> Seq<Option<VcpuRequest>> {
    writes.map_values(|w: RegisterWrite| Some(VcpuRequest::SetRegister { index, write: w }))
}

proof fn lemma_register_phase_from<H>(s: BringUp<H>, k: usize)
    requires
        s.inv(),
        s.stage == (Stage::Registers { next: k }),
    ensures
        requests(s, all_done((s.plan().len() - k) as nat)) == write_requests(
            s.index as u8,
            s.plan().subrange(k as int, s.plan().len() as int),
        ),
        run(s, all_done((s.plan().len() - k) as nat)) == (BringUp { stage: Stage::Affinity, ..s }),
    decreases s.plan().len() - k,
{
    let n = s.plan().len();
    assert(k < n);
    let done = all_done::<H>((n - k) as nat);
    let t = s.step(ControlReply::Done);
    assert(done.drop_first() =~= all_done::<H>((n - k - 1) as nat));
    if k + 1 < n {
        lemma_step_inv(s, ControlReply::Done);
        lemma_register_phase_from(t, (k + 1) as usize);
    } else {
        assert(done.drop_first() =~= Seq::<ControlReply<H>>::empty());
    }
    assert(done[0] == ControlReply::<H>::Done);
    assert(t.plan() == s.plan());
    assert(requests(s, done) == seq![s.request()] + requests(t, done.drop_first()));
    assert(write_requests(s.index as u8, s.plan().subrange(k as int, n as int)) =~= seq![
        s.request(),
    ] + write_requests(s.index as u8, s.plan().subrange(k + 1, n as int)));
    assert(requests(s, done) =~= write_requests(s.index as u8, s.plan().subrange(k as int, n as int)));
}

/// Once vCPU `index` is initialized, a bring-up whose register writes succeed
/// asks for exactly its boot register writes, in order, and then for its
/// affinity register: for the boot vCPU the processor state, the program
/// counter set to the entry address and `regs[0]` set to the device tree
/// address; for any other vCPU the processor state alone.
pub proof fn lemma_register_phase<H>(s: BringUp<H>)
    requires
        s.inv(),
        s.stage == (Stage::Registers { next: 0 }),
    ensures
        requests(s, all_done(s.plan().len())) == write_requests(s.index as u8, s.plan()),
        run(s, all_done(s.plan().len())).request() == Some(
            VcpuRequest::GetRegister { index: s.index as u8, id: mpidr_el1_spec() },
        ),
        s.index == 0 ==> requests(s, all_done(s.plan().len())) == seq![
            Some(VcpuRequest::SetRegister { index: 0, write: RegisterWrite {
                id: core_reg_id_spec(CoreRegister::Pstate),
                value: PSTATE_FAULT_BITS_64,
            } }),
            Some(VcpuRequest::SetRegister { index: 0, write: RegisterWrite {
                id: core_reg_id_spec(CoreRegister::Pc),
                value: s.entry,
            } }),
            Some(VcpuRequest::SetRegister { index: 0, write: RegisterWrite {
                id: core_reg_id_spec(CoreRegister::Gpr(0)),
                value: s.fdt,
            } }),
        ],
        s.index > 0 ==> requests(s, all_done(s.plan().len())) == seq![
            Some(VcpuRequest::SetRegister { index: s.index as u8, write: RegisterWrite {
                id: core_reg_id_spec(CoreRegister::Pstate),
                value: PSTATE_FAULT_BITS_64,
            } }),
        ],
{
    lemma_register_phase_from(s, 0);
    assert(s.plan().subrange(0, s.plan().len() as int) =~= s.plan());
    let r = requests(s, all_done(s.plan().len()));
    if s.index == 0 {
        assert(r =~= seq![r[0], r[1], r[2]]);
    } else {
        assert(s.index as u8 > 0);
        assert(r =~= seq![r[0]]);
    }
}

/// Given the preferred initialization, the bring-up initializes the vCPU at
/// hand with PSCI 0.2, and every vCPU but the boot one powered off at start.
pub proof fn lemma_init_request<H>(s: BringUp<H>, preferred: VcpuInit)
    requires
        s.inv(),
        s.stage is Target,
    ensures
        s.step(ControlReply::Target(preferred)).request() == Some(
            VcpuRequest::Init { index: s.index as u8, init: vcpu_init_spec(preferred, s.index as u8) },
        ),
        s.index > 0 ==> vcpu_init_spec(preferred, s.index as u8).features@[0] & (1u32
            << KVM_ARM_VCPU_POWER_OFF) != 0,
        vcpu_init_spec(preferred, s.index as u8).features@[0] & (1u32 << KVM_ARM_VCPU_PSCI_0_2)
            != 0,
{
    lemma_power_off_feature(preferred.features@[0], s.index as u8);
}

/// The vCPU indices that a bring-up asks to create while `replies` answer its
/// requests, in the order it asks.
pub open spec fn created_indices<H>(s: BringUp<H>, replies: Seq<ControlReply<H>>) -> Seq<int>
    decreases replies.len(),
{
    if replies.len() == 0 {
        Seq::empty()
    } else {
        let rest = created_indices(s.step(replies[0]), replies.drop_first());
        match s.request() {
            Some(VcpuRequest::Create { index }) => seq![index as int] + rest,
            _ => rest,
        }
    }
}

/// The index of the next vCPU the bring-up will ask to create.
pub open spec fn next_created<H>(s: BringUp<H>) -> int {
    if s.stage is Create {
        s.index as int
    } else {
        s.index as int + 1
    }
}

proof fn lemma_created_from<H>(s: BringUp<H>, replies: Seq<ControlReply<H>>)
    requires
        s.inv(),
    ensures
        forall|i: int|
            0 <= i < created_indices(s, replies).len() ==> #[trigger] created_indices(s, replies)[i]
                == next_created(s) + i && created_indices(s, replies)[i] < s.count,
    decreases replies.len(),
{
    if replies.len() > 0 {
        let t = s.step(replies[0]);
        let rest = replies.drop_first();
        lemma_step_inv(s, replies[0]);
        lemma_created_from(t, rest);
        let c = created_indices(s, replies);
        let d = created_indices(t, rest);
        if s.stage is Create {
            if t.stage is Target {
                assert(next_created(t) == next_created(s) + 1);
            } else {
                assert(t.stage is Aborted);
                assert(d.len() == 0) by {
                    lemma_aborted_creates_nothing(t, rest);
                }
            }
            assert(c =~= seq![s.index as int] + d);
            assert forall|i: int| 0 <= i < c.len() implies #[trigger] c[i] == next_created(s) + i
                && c[i] < s.count by {
                if i > 0 {
                    assert(c[i] == d[i - 1]);
                }
            }
        } else {
            match s.stage {
                Stage::Affinity => {
                    if t.stage is Finished {
                        lemma_finished_creates_nothing(t, rest);
                    }
                },
                Stage::Aborted { .. } => {},
                Stage::Finished => {},
                _ => {
                    if t.stage is Aborted {
                        lemma_aborted_creates_nothing(t, rest);
                    }
                },
            }
            assert(c =~= d);
        }
    }
}

proof fn lemma_aborted_creates_nothing<H>(s: BringUp<H>, replies: Seq<ControlReply<H>>)
    requires
        s.stage is Aborted,
    ensures
        created_indices(s, replies).len() == 0,
    decreases replies.len(),
{
    if replies.len() > 0 {
        lemma_aborted_creates_nothing(s.step(replies[0]), replies.drop_first());
    }
}

proof fn lemma_finished_creates_nothing<H>(s: BringUp<H>, replies: Seq<ControlReply<H>>)
    requires
        s.stage is Finished,
    ensures
        created_indices(s, replies).len() == 0,
    decreases replies.len(),
{
    if replies.len() > 0 {
        lemma_finished_creates_nothing(s.step(replies[0]), replies.drop_first());
    }
}

/// Whatever the control interface answers, a bring-up of `count` vCPUs asks
/// to create vCPUs 0, 1, 2, ... in ascending order, each once, none at or
/// beyond `count`. Once a creation is refused the bring-up is aborted: it
/// asks for nothing more and holds no vCPU.
pub proof fn lemma_creation_order<H>(count: u8, entry: u64, fdt: u64, replies: Seq<ControlReply<H>>)
    ensures
        forall|i: int|
            0 <= i < created_indices(BringUp::<H>::start(count as nat, entry, fdt), replies).len()
                ==> #[trigger] created_indices(BringUp::<H>::start(count as nat, entry, fdt), replies)[i]
                == i && i < count,
        forall|s: BringUp<H>, reply: ControlReply<H>|
            #![trigger s.step(reply)]
            s.inv() && s.stage is Create && !(reply is Created) ==> s.step(reply).stage == (
            Stage::Aborted { error: Error::VcpuCreation }) && s.step(reply).cpus.len() == 0
                && s.step(reply).request() is None,
{
    lemma_created_from(BringUp::<H>::start(count as nat, entry, fdt), replies);
}

/// Answering `a` then `b` is answering `a`, then `b` from where `a` left off.
pub proof fn lemma_run_concat<H>(s: BringUp<H>, a: Seq<ControlReply<H>>, b: Seq<ControlReply<H>>)
    ensures
        run(s, a + b) == run(run(s, a), b),
        requests(s, a + b) == requests(s, a) + requests(run(s, a), b),
    decreases a.len(),
{
    if a.len() == 0 {
        assert(a + b =~= b);
        assert(requests(s, a) + requests(s, b) =~= requests(s, b));
    } else {
        assert((a + b)[0] == a[0]);
        assert((a + b).drop_first() =~= a.drop_first() + b);
        lemma_run_concat(s.step(a[0]), a.drop_first(), b);
        assert(requests(s, a + b) =~= requests(s, a) + requests(run(s, a), b));
    }
}

/// The answers of a control interface that accepts every call for one vCPU:
/// its handle, the preferred initialization, `writes` plain successes and its
/// affinity value.
pub open spec fn vcpu_replies<H>(fd: H, preferred: VcpuInit, writes: nat, mpidr: u64) -> Seq<
    ControlReply<H>,
> {
    seq![ControlReply::Created(fd), ControlReply::Target(preferred), ControlReply::Done] + all_done(
        writes,
    ) + seq![ControlReply::Value(mpidr)]
}

/// The requests that bring up vCPU `index` when every call succeeds.
pub open spec fn vcpu_requests(index: u8, preferred: VcpuInit, writes: Seq<RegisterWrite>) -> Seq<
    Option<VcpuRequest>,
> {
    seq![
        Some(VcpuRequest::Create { index }),
        Some(VcpuRequest::PreferredTarget { index }),
        Some(VcpuRequest::Init { index, init: vcpu_init_spec(preferred, index) }),
    ] + write_requests(index, writes) + seq![
        Some(VcpuRequest::GetRegister { index, id: mpidr_el1_spec() }),
    ]
}

/// When every call for the vCPU at hand succeeds, the bring-up creates it,
/// reads the preferred initialization, initializes it, makes its boot register
/// writes in order and reads its affinity register; it then holds the vCPU,
/// with that handle, index and affinity, and moves to the next one.
pub proof fn lemma_vcpu_bring_up<H>(s: BringUp<H>, fd: H, preferred: VcpuInit, mpidr: u64)
    requires
        s.inv(),
        s.stage is Create,
    ensures
        requests(s, vcpu_replies(fd, preferred, s.plan().len(), mpidr)) == vcpu_requests(
            s.index as u8,
            preferred,
            s.plan(),
        ),
        run(s, vcpu_replies(fd, preferred, s.plan().len(), mpidr)) == (BringUp {
            index: s.index + 1,
            stage: if s.index + 1 < s.count {
                Stage::Create
            } else {
                Stage::Finished
            },
            cpus: s.cpus.push(Vcpu { fd, id: s.index as u8, mpidr }),
            ..s
        }),
        run(s, vcpu_replies(fd, preferred, s.plan().len(), mpidr)).inv(),
{
    let n = s.plan().len();
    let head = seq![ControlReply::Created(fd), ControlReply::Target(preferred), ControlReply::Done];
    let mid = all_done::<H>(n);
    let tail = seq![ControlReply::<H>::Value(mpidr)];
    let s1 = s.step(ControlReply::Created(fd));
    let s2 = s1.step(ControlReply::Target(preferred));
    let s3 = s2.step(ControlReply::Done);
    lemma_step_inv(s, ControlReply::Created(fd));
    lemma_step_inv(s1, ControlReply::Target(preferred));
    lemma_step_inv(s2, ControlReply::Done);
    reveal_with_fuel(run, 4);
    reveal_with_fuel(requests, 4);
    assert(head.drop_first().drop_first().drop_first() =~= Seq::<ControlReply<H>>::empty());
    assert(run(s, head) == s3);
    assert(requests(s, head) =~= seq![s.request(), s1.request(), s2.request()]);
    assert(s3.plan() == s.plan());
    lemma_register_phase_from(s3, 0);
    assert(s.plan().subrange(0, n as int) =~= s.plan());
    let s4 = run(s3, mid);
    lemma_run_concat(s, head, mid);
    lemma_run_concat(s, head + mid, tail);
    assert(head + mid + tail == vcpu_replies(fd, preferred, n, mpidr));
    assert(tail.drop_first() =~= Seq::<ControlReply<H>>::empty());
    assert(requests(s4, tail) =~= seq![s4.request()]);
    lemma_step_inv(s4, ControlReply::Value(mpidr));
    assert(s4.step(ControlReply::Value(mpidr)).cpus =~= s.cpus.push(
        Vcpu { fd, id: s.index as u8, mpidr },
    ));
    assert(requests(s, vcpu_replies(fd, preferred, n, mpidr)) =~= vcpu_requests(
        s.index as u8,
        preferred,
        s.plan(),
    ));
}

/// A VM of two vCPUs whose control interface accepts every call: the boot
/// vCPU 0 gets the processor state, its program counter set to the kernel
/// entry and `regs[0]` set to the device tree address; vCPU 1 is initialized
/// powered off and gets the processor state alone; the bring-up finishes
/// holding both, numbered 0 and 1, with the affinity values read back.
pub proof fn lemma_two_vcpu_boot<H>(
    entry: u64,
    fdt: u64,
    fd0: H,
    fd1: H,
    preferred0: VcpuInit,
    preferred1: VcpuInit,
    mpidr0: u64,
    mpidr1: u64,
)
    ensures
        ({
            let replies = vcpu_replies(fd0, preferred0, 3, mpidr0) + vcpu_replies(
                fd1,
                preferred1,
                1,
                mpidr1,
            );
            let end = run(BringUp::<H>::start(2, entry, fdt), replies);
            &&& end.stage is Finished
            &&& end.cpus == seq![
                Vcpu { fd: fd0, id: 0, mpidr: mpidr0 },
                Vcpu { fd: fd1, id: 1, mpidr: mpidr1 },
            ]
            &&& requests(BringUp::<H>::start(2, entry, fdt), replies) == vcpu_requests(
                0,
                preferred0,
                seq![
                    RegisterWrite {
                        id: core_reg_id_spec(CoreRegister::Pstate),
                        value: PSTATE_FAULT_BITS_64,
                    },
                    RegisterWrite { id: core_reg_id_spec(CoreRegister::Pc), value: entry },
                    RegisterWrite { id: core_reg_id_spec(CoreRegister::Gpr(0)), value: fdt },
                ],
            ) + vcpu_requests(
                1,
                preferred1,
                seq![
                    RegisterWrite {
                        id: core_reg_id_spec(CoreRegister::Pstate),
                        value: PSTATE_FAULT_BITS_64,
                    },
                ],
            )
        }),
        vcpu_init_spec(preferred1, 1).features@[0] & (1u32 << KVM_ARM_VCPU_POWER_OFF) != 0,
{
    let s0 = BringUp::<H>::start(2, entry, fdt);
    let a = vcpu_replies(fd0, preferred0, 3, mpidr0);
    let b = vcpu_replies(fd1, preferred1, 1, mpidr1);
    assert(s0.cpus.len() == 0);
    lemma_vcpu_bring_up(s0, fd0, preferred0, mpidr0);
    let s1 = run(s0, a);
    lemma_vcpu_bring_up(s1, fd1, preferred1, mpidr1);
    lemma_run_concat(s0, a, b);
    assert(s1.cpus.push(Vcpu { fd: fd1, id: 1, mpidr: mpidr1 }) =~= seq![
        Vcpu { fd: fd0, id: 0, mpidr: mpidr0 },
        Vcpu { fd: fd1, id: 1, mpidr: mpidr1 },
    ]);
    lemma_power_off_feature(preferred1.features@[0], 1);
}

/// Answering a request keeps the bring-up consistent.
pub proof fn lemma_step_inv<H>(s: BringUp<H>, reply: ControlReply<H>)
    requires
        s.inv(),
    ensures
        s.step(reply).inv(),
{
    let t = s.step(reply);
    match s.stage {
        Stage::Create => {
            if reply is Created {
                assert forall|i: int| 0 <= i < t.cpus.len() implies (#[trigger] t.cpus[i]).id == i by {
                    if i < s.cpus.len() {
                        assert(t.cpus[i] == s.cpus[i]);
                    }
                }
                reveal_with_fuel(boot_register_writes, 1);
            }
        },
        Stage::Affinity => {
            if reply is Value {
                assert forall|i: int| 0 <= i < t.cpus.len() implies (#[trigger] t.cpus[i]).id == i by {
                    if i != s.index {
                        assert(t.cpus[i] == s.cpus[i]);
                    }
                }
            }
        },
        _ => {},
    }
}

/// Whatever the control interface answers, the vCPUs a bring-up of `count`
/// vCPUs holds are numbered 0, 1, ... in order and are never more than
/// `count`; a finished bring-up holds exactly `count`; one that was refused
/// holds none, so no vCPU past the refused one is ever kept.
pub proof fn lemma_run_records<H>(count: u8, entry: u64, fdt: u64, replies: Seq<ControlReply<H>>)
    ensures
        run(BringUp::start(count as nat, entry, fdt), replies).inv(),
        run(BringUp::start(count as nat, entry, fdt), replies).cpus.len() <= count,
        forall|i: int|
            0 <= i < run(BringUp::start(count as nat, entry, fdt), replies).cpus.len() ==> (
            #[trigger] run(BringUp::start(count as nat, entry, fdt), replies).cpus[i]).id == i,
        run(BringUp::start(count as nat, entry, fdt), replies).stage is Finished ==> run(
            BringUp::start(count as nat, entry, fdt),
            replies,
        ).cpus.len() == count,
        run(BringUp::start(count as nat, entry, fdt), replies).stage is Aborted ==> run(
            BringUp::start(count as nat, entry, fdt),
            replies,
        ).cpus.len() == 0,
{
    lemma_run_inv(BringUp::start(count as nat, entry, fdt), replies);
}

proof fn lemma_run_inv<H>(s: BringUp<H>, replies: Seq<ControlReply<H>>)
    requires
        s.inv(),
    ensures
        run(s, replies).inv(),
        run(s, replies).count == s.count,
        run(s, replies).entry == s.entry,
        run(s, replies).fdt == s.fdt,
    decreases replies.len(),
{
    if replies.len() > 0 {
        lemma_step_inv(s, replies[0]);
        lemma_run_inv(s.step(replies[0]), replies.drop_first());
    }
}

} // verus!
