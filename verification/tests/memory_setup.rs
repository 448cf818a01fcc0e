use axvm::err::HvError;
use axvm::gpm::GuestPhysMemorySet;
use axvm::meta::{setup_gpm, DeviceWindow, MachineMeta, GUEST_PHYS_MEMORY_BASE,
    GUEST_PHYS_MEMORY_SIZE};
use axvm::region::{GuestMemoryRegion, MemFlags};

fn ram_only_meta() -> MachineMeta {
    MachineMeta {
        physical_memory_offset: GUEST_PHYS_MEMORY_BASE,
        physical_memory_size: GUEST_PHYS_MEMORY_SIZE,
        test_finisher_address: None,
        uart: None,
        clint: None,
        plic: None,
        pci: None,
        virtio: Vec::new(),
    }
}

const RAM_HPA: usize = 0x8000_0000;
const ROOT: usize = 0x8800_0000;

fn rwxu() -> MemFlags {
    MemFlags { read: true, write: true, execute: true, user: true }
}

fn rwu() -> MemFlags {
    MemFlags { read: true, write: true, execute: false, user: true }
}

fn rwx_count(set: &GuestPhysMemorySet) -> usize {
    let mut count = 0;
    let mut i = 0;
    while i < set.region_count() {
        let r = set.region_at(i);
        if r.flags.read && r.flags.write && r.flags.execute {
            count += 1;
        }
        i += 1;
    }
    count
}

#[test]
fn ram_window_single_rwx_region() {
    let meta = ram_only_meta();
    let set = setup_gpm(&meta, RAM_HPA, ROOT).unwrap();
    assert_eq!(set.region_count(), 1);
    assert_eq!(rwx_count(&set), 1);
    let ram = set.region_at(0);
    assert_eq!(ram.gpa, GUEST_PHYS_MEMORY_BASE);
    assert_eq!(ram.hpa, RAM_HPA);
    assert_eq!(ram.size, GUEST_PHYS_MEMORY_SIZE);
    assert_eq!(ram.flags, rwxu());
    assert_eq!(set.nest_page_table_root(), ROOT);
}

#[test]
fn test_finisher_window_padded_by_one_page() {
    let mut meta = ram_only_meta();
    meta.test_finisher_address = Some(DeviceWindow { base_address: 0x10_0000, size: 0x1000 });
    let set = setup_gpm(&meta, RAM_HPA, ROOT).unwrap();
    assert_eq!(set.region_count(), 2);
    let test = set.region_at(0);
    assert_eq!(test.gpa, 0x10_0000);
    assert_eq!(test.size, 0x1000 + 0x1000);
    assert_eq!(test.flags, rwu());
    // The RAM window stays the only executable region.
    assert_eq!(rwx_count(&set), 1);
}

#[test]
fn plic_window_mapped_with_fixed_size() {
    // The end-to-end shape: the RAM window [0x9000_0000, +0x0400_0000) and a
    // platform-interrupt-controller window discovered at 0xC00_0000 with
    // size 0x0040_0000; the installed mapping must be 0x20_0000 regardless.
    let mut meta = ram_only_meta();
    meta.plic = Some(DeviceWindow { base_address: 0xC00_0000, size: 0x0040_0000 });
    let set = setup_gpm(&meta, RAM_HPA, ROOT).unwrap();
    assert_eq!(set.region_count(), 2);
    let plic = set.region_at(0);
    assert_eq!(plic.gpa, 0xC00_0000);
    assert_eq!(plic.size, 0x20_0000);
    assert_eq!(plic.flags, rwu());
    let ram = set.region_at(1);
    assert_eq!(ram.flags, rwxu());
}

#[test]
fn uart_window_mapped_with_fixed_size() {
    let mut meta = ram_only_meta();
    meta.uart = Some(DeviceWindow { base_address: 0x1000_0000, size: 0x8000 });
    let set = setup_gpm(&meta, RAM_HPA, ROOT).unwrap();
    let uart = set.region_at(0);
    assert_eq!(uart.size, 0x1000);
    assert_eq!(uart.flags, rwu());
}

#[test]
fn full_platform_region_order() {
    let mut meta = ram_only_meta();
    meta.test_finisher_address = Some(DeviceWindow { base_address: 0x10_0000, size: 0x1000 });
    meta.virtio.push(DeviceWindow { base_address: 0x1000_1000, size: 0x1000 });
    meta.virtio.push(DeviceWindow { base_address: 0x1000_2000, size: 0x1000 });
    meta.uart = Some(DeviceWindow { base_address: 0x1000_0000, size: 0x100 });
    meta.clint = Some(DeviceWindow { base_address: 0x200_0000, size: 0x1_0000 });
    meta.plic = Some(DeviceWindow { base_address: 0xC00_0000, size: 0x400_0000 });
    meta.pci = Some(DeviceWindow { base_address: 0x3000_0000, size: 0x1000_0000 });
    let set = setup_gpm(&meta, RAM_HPA, ROOT).unwrap();
    assert_eq!(set.region_count(), 8);
    assert_eq!(set.region_at(0).gpa, 0x10_0000);
    assert_eq!(set.region_at(1).gpa, 0x1000_1000);
    assert_eq!(set.region_at(2).gpa, 0x1000_2000);
    assert_eq!(set.region_at(3).gpa, 0x1000_0000);
    assert_eq!(set.region_at(4).gpa, 0x200_0000);
    assert_eq!(set.region_at(5).gpa, 0xC00_0000);
    assert_eq!(set.region_at(5).size, 0x20_0000);
    assert_eq!(set.region_at(6).gpa, 0x3000_0000);
    assert_eq!(set.region_at(7).gpa, GUEST_PHYS_MEMORY_BASE);
    assert_eq!(rwx_count(&set), 1);
}

#[test]
fn map_region_rejects_empty_region() {
    let mut set = GuestPhysMemorySet::new(ROOT);
    let r = GuestMemoryRegion { gpa: 0x1000, hpa: 0x1000, size: 0, flags: rwu() };
    assert_eq!(set.map_region(r), Err(HvError::InvalidInput));
    assert_eq!(set.region_count(), 0);
}

#[test]
fn map_region_rejects_unaligned_region() {
    let mut set = GuestPhysMemorySet::new(ROOT);
    let r = GuestMemoryRegion { gpa: 0x1008, hpa: 0x1000, size: 0x1000, flags: rwu() };
    assert_eq!(set.map_region(r), Err(HvError::InvalidInput));
}

#[test]
fn map_region_rejects_overlap() {
    let mut set = GuestPhysMemorySet::new(ROOT);
    let a = GuestMemoryRegion { gpa: 0x1000, hpa: 0x1000, size: 0x2000, flags: rwu() };
    let b = GuestMemoryRegion { gpa: 0x2000, hpa: 0x9000, size: 0x1000, flags: rwu() };
    assert_eq!(set.map_region(a), Ok(()));
    assert_eq!(set.map_region(b), Err(HvError::AlreadyExists));
    assert_eq!(set.region_count(), 1);
}

#[test]
fn map_region_order_independent_acceptance() {
    // Two disjoint regions are accepted whichever goes first.
    let a = GuestMemoryRegion { gpa: 0x1000, hpa: 0x1000, size: 0x1000, flags: rwu() };
    let b = GuestMemoryRegion { gpa: 0x4000, hpa: 0x4000, size: 0x2000, flags: rwxu() };
    let mut s1 = GuestPhysMemorySet::new(ROOT);
    assert_eq!(s1.map_region(a), Ok(()));
    assert_eq!(s1.map_region(b), Ok(()));
    let mut s2 = GuestPhysMemorySet::new(ROOT);
    assert_eq!(s2.map_region(b), Ok(()));
    assert_eq!(s2.map_region(a), Ok(()));
    assert_eq!(s1.region_count(), 2);
    assert_eq!(s2.region_count(), 2);
    assert_eq!(s1.region_at(0), s2.region_at(1));
    assert_eq!(s1.region_at(1), s2.region_at(0));
}

#[test]
fn setup_gpm_rejects_overlapping_windows() {
    let mut meta = ram_only_meta();
    // A virtio window inside the RAM window collides with it.
    meta.virtio.push(DeviceWindow { base_address: GUEST_PHYS_MEMORY_BASE, size: 0x1000 });
    assert!(matches!(setup_gpm(&meta, RAM_HPA, ROOT), Err(HvError::AlreadyExists)));
}
