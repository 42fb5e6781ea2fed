//! Guest RAM: the region list of the address map and the host mappings behind it.
use crate::error::{Error, Result};
use crate::layout::VmLayout;
use vm_memory::mmap::FromRangesError;
use vm_memory::{
    Address, GuestAddress, GuestMemory, GuestMemoryMmap, GuestMemoryRegion, GuestRegionCollection,
    GuestRegionMmap,
};
use vstd::prelude::*;

verus! {

#[verifier::external_type_specification]
#[verifier::external_body]
#[verifier::reject_recursive_types(R)]
pub struct ExGuestRegionCollection<R>(GuestRegionCollection<R>);

#[verifier::external_type_specification]
#[verifier::external_body]
#[verifier::reject_recursive_types(B)]
pub struct ExGuestRegionMmap<B>(GuestRegionMmap<B>);

#[verifier::external_type_specification]
#[verifier::external_body]
pub struct ExFromRangesError(FromRangesError);

/// The regions of a guest memory, in the collection's order, each as
/// `(guest-physical base address, length in bytes)`.
pub uninterp spec fn guest_ranges(m: GuestMemoryMmap) -> Seq<(u64, u64)>;

/// The highest byte address covered by a list of regions (0 for none).
pub open spec fn ranges_last_addr(s: Seq<(u64, u64)>) -> int
    decreases s.len(),
{
    if s.len() == 0 {
        0
    } else {
        let rest = ranges_last_addr(s.drop_last());
        let last = s.last().0 + s.last().1 - 1;
        if rest >= last {
            rest
        } else {
            last
        }
    }
}

/// Whether some region of the list holds the byte at `addr`.
pub open spec fn ranges_contain(s: Seq<(u64, u64)>, addr: int) -> bool {
    exists|i: int| 0 <= i < s.len() && #[trigger] s[i].0 <= addr < s[i].0 + s[i].1
}

/// Relies on `GuestMemoryMmap::from_ranges`: on success it holds one anonymous
/// mapping per range, at the given base and of the given length, in the given order.
#[verifier::external_body]
fn mmap_from_ranges(ranges: &Vec<(u64, usize)>) -> (r: core::result::Result<
    GuestMemoryMmap,
    FromRangesError,
>)
    ensures
        r is Ok ==> guest_ranges(r->Ok_0) == ranges@.map_values(
            |p: (u64, usize)| (p.0, p.1 as u64),
        ),
{
    let ranges: Vec<(GuestAddress, usize)> = ranges.iter().map(|p| (GuestAddress(p.0), p.1)).collect();
    GuestMemoryMmap::from_ranges(&ranges)
}

/// Relies on `GuestMemory::last_addr`: the maximum over the regions of their last
/// byte address, starting from 0.
#[verifier::external_body]
pub(crate) fn mmap_last_addr(m: &GuestMemoryMmap) -> (a: u64)
    ensures
        a as int == ranges_last_addr(guest_ranges(*m)),
{
    m.last_addr().raw_value()
}

/// Relies on `GuestMemory::address_in_range`: whether a region holds `addr`.
#[verifier::external_body]
pub(crate) fn mmap_address_in_range(m: &GuestMemoryMmap, addr: u64) -> (b: bool)
    ensures
        b == ranges_contain(guest_ranges(*m), addr as int),
{
    m.address_in_range(GuestAddress(addr))
}

/// Relies on `GuestMemory::iter`, `GuestMemoryRegion::start_addr` and
/// `GuestMemoryRegion::len`: the regions, in order, as base and length.
#[verifier::external_body]
fn mmap_regions(m: &GuestMemoryMmap) -> (v: Vec<(u64, u64)>)
    ensures
        v@ == guest_ranges(*m),
{
    let mut v = Vec::new();
    for region in m.iter() {
        v.push((region.start_addr().raw_value(), region.len()));
    }
    v
}

/// Kind of a region of the guest address map.
#[derive(Debug, Clone, Copy, PartialEq, Eq, Structural)]
pub enum RegionType {
    /// RAM type
    Ram,
}

/// The RAM regions of a region list, in order, as base and length.
pub open spec fn ram_ranges(s: Seq<(u64, usize, RegionType)>) -> Seq<(u64, usize)>
    decreases s.len(),
{
    if s.len() == 0 {
        Seq::empty()
    } else {
        let rest = ram_ranges(s.drop_last());
        if s.last().2 == RegionType::Ram {
            rest.push((s.last().0, s.last().1))
        } else {
            rest
        }
    }
}

/// Whether `size` is a RAM size that the guest address map can hold.
pub open spec fn valid_ram_size(size: int) -> bool {
    0 < size <= VmLayout::DRAM_MEM_MAX_SIZE
}

/// The guest's RAM, mapped into this process.
pub struct VmMemory {
    pub guest_mem: GuestMemoryMmap,
}

impl VmMemory {
    /// Start of RAM on 64 bit ARM.
    pub const DRAM_MEM_START: u64 = 0x8000_0000;
    /// The maximum addressable RAM address.
    pub const DRAM_MEM_END: u64 = 0x00FF_8000_0000;
    /// The maximum RAM size.
    pub const DRAM_MEM_MAX_SIZE: u64 = VmMemory::DRAM_MEM_END - VmMemory::DRAM_MEM_START;

    /// Builds the guest RAM of `mem_size` bytes: one region at the start of
    /// RAM, backed by a zero-filled anonymous mapping.
    pub fn new(mem_size: usize) -> (r: Result<Self>)
        ensures
            !valid_ram_size(mem_size as int) <==> r == Err::<Self, Error>(Error::InvalidSize),
            r is Err ==> r == Err::<Self, Error>(Error::InvalidSize) || r == Err::<Self, Error>(
                Error::GuestMemory,
            ),
            r is Ok ==> guest_ranges(r->Ok_0.guest_mem) == seq![
                (VmLayout::DRAM_MEM_START, mem_size as u64),
            ],
    {
        if mem_size == 0 || mem_size as u64 > VmLayout::DRAM_MEM_MAX_SIZE {
            return Err(Error::InvalidSize);
        }
        let arch_mem_regions = VmMemory::arch_memory_regions(mem_size);
        let mut ram_regions: Vec<(u64, usize)> = Vec::new();
        let mut i: usize = 0;
        while i < arch_mem_regions.len()
            invariant
                i <= arch_mem_regions@.len(),
                ram_regions@ == ram_ranges(arch_mem_regions@.subrange(0, i as int)),
            decreases arch_mem_regions@.len() - i,
        {
            let region = arch_mem_regions[i];
            proof {
                assert(arch_mem_regions@.subrange(0, i + 1).drop_last() =~= arch_mem_regions@.subrange(0, i as int));
            }
            if region.2 == RegionType::Ram {
                ram_regions.push((region.0, region.1));
            }
            i = i + 1;
        }
        proof {
            assert(arch_mem_regions@.subrange(0, i as int) =~= arch_mem_regions@);
            assert(arch_mem_regions@.drop_last() =~= Seq::<(u64, usize, RegionType)>::empty());
            reveal_with_fuel(ram_ranges, 2);
            assert(ram_regions@ =~= seq![(VmLayout::DRAM_MEM_START, mem_size)]);
        }
        match mmap_from_ranges(&ram_regions) {
            Ok(guest_mem) => {
                assert(ram_regions@.map_values(|p: (u64, usize)| (p.0, p.1 as u64)) =~= seq![
                    (VmLayout::DRAM_MEM_START, mem_size as u64),
                ]);
                Ok(VmMemory { guest_mem })
            },
            Err(_) => Err(Error::GuestMemory),
        }
    }

    /// The regions of the guest address map for `size` bytes of RAM.
    pub fn arch_memory_regions(size: usize) -> (v: Vec<(u64, usize, RegionType)>)
        ensures
            v@ == seq![(VmLayout::DRAM_MEM_START, size, RegionType::Ram)],
    {
        vec![(VmLayout::DRAM_MEM_START, size, RegionType::Ram)]
    }

    /// The regions of the guest memory as built, in order, as base and length.
    pub fn ram_regions(&self) -> (v: Vec<(u64, u64)>)
        ensures
            v@ == guest_ranges(self.guest_mem),
    {
        mmap_regions(&self.guest_mem)
    }
}

} // verus!
