use arm_vmm::config::VmConfig;
use arm_vmm::error::Error;
use arm_vmm::layout::VmLayout;
use arm_vmm::memory::{RegionType, VmMemory};
use std::path::PathBuf;

const MIB: usize = 1 << 20;

#[test]
fn zero_size_is_invalid() {
    assert!(matches!(VmMemory::new(0), Err(Error::InvalidSize)));
}

#[test]
fn size_above_ceiling_is_invalid() {
    let too_big = (VmLayout::DRAM_MEM_MAX_SIZE + 1) as usize;
    assert!(matches!(VmMemory::new(too_big), Err(Error::InvalidSize)));
}

#[test]
fn ram_is_one_region_at_start_of_ram() {
    let mem = VmMemory::new(128 * MIB).unwrap();
    assert_eq!(mem.ram_regions(), vec![(0x8000_0000, (128 * MIB) as u64)]);
}

#[test]
fn odd_sized_ram_keeps_its_exact_length() {
    let mem = VmMemory::new(4096 + 17).unwrap();
    assert_eq!(mem.ram_regions(), vec![(0x8000_0000, 4113)]);
}

#[test]
fn region_list_of_the_address_map() {
    assert_eq!(
        VmMemory::arch_memory_regions(64 * MIB),
        vec![(0x8000_0000, 64 * MIB, RegionType::Ram)]
    );
}

#[test]
fn layout_constants() {
    assert_eq!(VmLayout::DRAM_MEM_START, 0x8000_0000);
    assert_eq!(VmLayout::DRAM_MEM_MAX_SIZE, 0x00FF_0000_0000);
    assert_eq!(VmLayout::FDT_MAX_SIZE, 0x20_0000);
    assert!(VmLayout::IRQ_BASE < VmLayout::IRQ_MAX);
    assert_eq!(VmLayout::MAPPED_IO_START, 0x4000_0000);
}

#[test]
fn fdt_sits_at_end_of_64_mib() {
    let mem = VmMemory::new(64 * MIB).unwrap();
    assert_eq!(
        VmLayout::get_fdt_addr(&mem.guest_mem),
        0x8000_0000 + (64 * MIB) as u64 - 0x20_0000
    );
}

#[test]
fn fdt_sits_at_end_of_1_gib() {
    let mem = VmMemory::new(1024 * MIB).unwrap();
    assert_eq!(VmLayout::get_fdt_addr(&mem.guest_mem), 0xC000_0000 - 0x20_0000);
}

#[test]
fn fdt_at_start_when_ram_is_exactly_fdt_size() {
    let mem = VmMemory::new(2 * MIB).unwrap();
    assert_eq!(VmLayout::get_fdt_addr(&mem.guest_mem), 0x8000_0000);
}

#[test]
fn fdt_falls_back_to_start_of_small_ram() {
    let mem = VmMemory::new(MIB).unwrap();
    assert_eq!(VmLayout::get_fdt_addr(&mem.guest_mem), 0x8000_0000);
}

#[test]
fn config_boots_all_its_vcpus() {
    let c = VmConfig::new(4, 128 << 20, PathBuf::from("Image"), PathBuf::from("disk.img"));
    assert_eq!(c.boot_vcpus, 4);
    assert_eq!(c.max_vcpus, 4);
    assert_eq!(c.memory_size, 128 << 20);
    assert_eq!(c.kernel_path, PathBuf::from("Image"));
    assert_eq!(c.disk_path, PathBuf::from("disk.img"));
}
