//      ==== Guest physical address map (64-bit ARM) ====
//
//   1022 GB  +--------------------------+  <- end of RAM
//            |  DRAM                    |
//      2 GB  +--------------------------+  <- start of RAM
//            |  Mapped I/O              |
//      1 GB  +--------------------------+
//            |  Interrupt controller    |
//      0 GB  +--------------------------+
use crate::memory::{
    guest_ranges, mmap_address_in_range, mmap_last_addr, ranges_contain, ranges_last_addr,
    valid_ram_size,
};
use vm_memory::GuestMemoryMmap;
use vstd::prelude::*;

verus! {

/// The fixed guest physical address map.
pub struct VmLayout {}

impl VmLayout {
    /// Start of RAM on 64 bit ARM.
    pub const DRAM_MEM_START: u64 = 0x8000_0000;
    /// The maximum addressable RAM address.
    pub const DRAM_MEM_END: u64 = 0x00FF_8000_0000;
    /// The maximum RAM size.
    pub const DRAM_MEM_MAX_SIZE: u64 = VmLayout::DRAM_MEM_END - VmLayout::DRAM_MEM_START;
    /// Kernel command line maximum size.
    pub const CMDLINE_MAX_SIZE: usize = 2048;
    /// Maximum size of the device tree blob.
    pub const FDT_MAX_SIZE: usize = 0x20_0000;
    /// First usable interrupt on aarch64.
    pub const IRQ_BASE: u32 = 32;
    /// Last usable interrupt on aarch64.
    pub const IRQ_MAX: u32 = 159;
    /// Below this address will reside the GIC, above this address will reside the MMIO devices.
    pub const MAPPED_IO_START: u64 = 1 << 30;

    /// Where the device tree blob goes: the last `FDT_MAX_SIZE` bytes of RAM when
    /// they lie in guest memory, else the start of RAM.
    pub fn get_fdt_addr(mem: &GuestMemoryMmap) -> (a: u64)
        ensures
            a == fdt_addr_spec(guest_ranges(*mem)),
    {
        let last = mmap_last_addr(mem);
        let span = VmLayout::FDT_MAX_SIZE as u64 - 1;
        if last >= span {
            let offset = last - span;
            if mmap_address_in_range(mem, offset) {
                return offset;
            }
        }
        VmLayout::DRAM_MEM_START
    }
}

/// The device tree address for guest memory made of the regions `s`.
pub open spec fn fdt_addr_spec(s: Seq<(u64, u64)>) -> u64 {
    let offset = ranges_last_addr(s) - (VmLayout::FDT_MAX_SIZE - 1);
    if offset >= 0 && ranges_contain(s, offset) {
        offset as u64
    } else {
        VmLayout::DRAM_MEM_START
    }
}

/// With RAM laid out as one region of `size` bytes at the start of RAM, the
/// device tree goes at `end - FDT_MAX_SIZE` when RAM holds at least
/// `FDT_MAX_SIZE` bytes, and at the start of RAM when it holds fewer.
pub proof fn lemma_fdt_addr_single_region(size: u64)
    requires
        valid_ram_size(size as int),
    ensures
        fdt_addr_spec(seq![(VmLayout::DRAM_MEM_START, size)]) == if size >= VmLayout::FDT_MAX_SIZE {
            (VmLayout::DRAM_MEM_START + size - VmLayout::FDT_MAX_SIZE) as u64
        } else {
            VmLayout::DRAM_MEM_START
        },
{
    let s = seq![(VmLayout::DRAM_MEM_START, size)];
    reveal_with_fuel(ranges_last_addr, 2);
    assert(s.drop_last() =~= Seq::<(u64, u64)>::empty());
    assert(ranges_last_addr(s) == VmLayout::DRAM_MEM_START + size - 1);
    let offset = ranges_last_addr(s) - (VmLayout::FDT_MAX_SIZE - 1);
    if size >= VmLayout::FDT_MAX_SIZE {
        assert(s[0].0 <= offset < s[0].0 + s[0].1);
        assert(ranges_contain(s, offset));
    } else {
        assert(!ranges_contain(s, offset)) by {
            assert forall|i: int| 0 <= i < s.len() implies !(#[trigger] s[i].0 <= offset < s[i].0
                + s[i].1) by {
                assert(i == 0);
            }
        }
    }
}

} // verus!
