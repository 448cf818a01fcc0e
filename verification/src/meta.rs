use vstd::prelude::*;

use crate::err::HvError;
use crate::gpm::{add_regions_spec, GuestPhysMemorySet};
use crate::region::{GuestMemoryRegion, MemFlags};

verus! {

/// Guest-physical base of the window backing the guest's RAM.
pub const GUEST_PHYS_MEMORY_BASE: usize = 0x9000_0000;
/// Guest-physical address the firmware description blob is loaded at.
pub const DTB_ENTRY: usize = 0x9000_0000;
/// Guest-physical entry point of the guest image.
pub const GUEST_ENTRY: usize = 0x9020_0000;
/// Size of the window backing the guest's RAM.
pub const GUEST_PHYS_MEMORY_SIZE: usize = 0x400_0000;

/// Padding added to the discovered test-finisher window so that the mapping
/// also covers the real-time-clock registers that sit just above it.
/// Documented magic constant: kept verbatim, not a general sizing rule.
pub const TEST_FINISHER_PAD: usize = 0x1000;
/// Fixed size the serial-console window is mapped with, whatever size was
/// discovered. Documented magic constant: kept verbatim.
pub const UART_MAP_SIZE: usize = 0x1000;
/// Fixed size the platform-interrupt-controller window is mapped with,
/// whatever size was discovered. Documented magic constant: kept verbatim.
pub const PLIC_MAP_SIZE: usize = 0x20_0000;

/// One discovered device or memory window.
#[derive(Clone, Copy, Debug, PartialEq, Eq, Structural)]
pub struct DeviceWindow {
    pub base_address: usize,
    pub size: usize,
}

/// What discovery reads out of the firmware description blob: the physical
/// RAM window and the device windows the platform carries. Produced once at
/// startup by the blob parser, consumed to build the region list.
#[derive(Debug)]
pub struct MachineMeta {
    pub physical_memory_offset: usize,
    pub physical_memory_size: usize,
    pub test_finisher_address: Option<DeviceWindow>,
    pub uart: Option<DeviceWindow>,
    pub clint: Option<DeviceWindow>,
    pub plic: Option<DeviceWindow>,
    pub pci: Option<DeviceWindow>,
    pub virtio: Vec<DeviceWindow>,
}

/// Read/write/execute/user: how the RAM window is mapped.
pub open spec fn flags_rwxu() -> MemFlags {
    MemFlags { read: true, write: true, execute: true, user: true }
}

/// Read/write/user, no execute: how pass-through device windows are mapped.
pub open spec fn flags_rwu() -> MemFlags {
    MemFlags { read: true, write: true, execute: false, user: true }
}

/// The mapping installed for the test-finisher window: identity pass-through,
/// padded by `TEST_FINISHER_PAD`; a device window, so no execute.
pub open spec fn test_region(w: DeviceWindow) -> GuestMemoryRegion {
    GuestMemoryRegion {
        gpa: w.base_address,
        hpa: w.base_address,
        size: (w.size + TEST_FINISHER_PAD) as usize,
        flags: flags_rwu(),
    }
}

/// The mapping installed for one virtio transport window: identity
/// pass-through at its discovered size.
pub open spec fn virtio_region(w: DeviceWindow) -> GuestMemoryRegion {
    GuestMemoryRegion { gpa: w.base_address, hpa: w.base_address, size: w.size, flags: flags_rwu() }
}

/// The mapping installed for the serial-console window: fixed size.
pub open spec fn uart_region(w: DeviceWindow) -> GuestMemoryRegion {
    GuestMemoryRegion {
        gpa: w.base_address,
        hpa: w.base_address,
        size: UART_MAP_SIZE,
        flags: flags_rwu(),
    }
}

/// The mapping installed for the core-local interrupt/timer window: identity
/// pass-through at its discovered size.
pub open spec fn clint_region(w: DeviceWindow) -> GuestMemoryRegion {
    GuestMemoryRegion { gpa: w.base_address, hpa: w.base_address, size: w.size, flags: flags_rwu() }
}

/// The mapping installed for the platform-interrupt-controller window: fixed
/// size, whatever was discovered.
pub open spec fn plic_region(w: DeviceWindow) -> GuestMemoryRegion {
    GuestMemoryRegion {
        gpa: w.base_address,
        hpa: w.base_address,
        size: PLIC_MAP_SIZE,
        flags: flags_rwu(),
    }
}

/// The mapping installed for the PCI window: identity pass-through.
pub open spec fn pci_region(w: DeviceWindow) -> GuestMemoryRegion {
    GuestMemoryRegion { gpa: w.base_address, hpa: w.base_address, size: w.size, flags: flags_rwu() }
}

/// The mapping installed for the RAM window: the discovered guest-physical
/// window, backed by the host buffer at `ram_hpa`, executable.
pub open spec fn ram_region(m: MachineMeta, ram_hpa: usize) -> GuestMemoryRegion {
    GuestMemoryRegion {
        gpa: m.physical_memory_offset,
        hpa: ram_hpa,
        size: m.physical_memory_size,
        flags: flags_rwxu(),
    }
}

pub open spec fn opt_window_seq(
    w: Option<DeviceWindow>,
    f: spec_fn(DeviceWindow) -> GuestMemoryRegion,
) -> Seq<GuestMemoryRegion> {
    match w {
        Some(w) => seq![f(w)],
        None => Seq::empty(),
    }
}

/// The full region list guest memory setup installs, in installation order:
/// test-finisher, virtio transports, serial console, core-local interrupt
/// device, platform interrupt controller, PCI, then the RAM window.
pub open spec fn gpm_regions(m: MachineMeta, ram_hpa: usize) -> Seq<GuestMemoryRegion> {
    opt_window_seq(m.test_finisher_address, |w: DeviceWindow| test_region(w))
        + m.virtio@.map(|i: int, w: DeviceWindow| virtio_region(w))
        + opt_window_seq(m.uart, |w: DeviceWindow| uart_region(w))
        + opt_window_seq(m.clint, |w: DeviceWindow| clint_region(w))
        + opt_window_seq(m.plic, |w: DeviceWindow| plic_region(w))
        + opt_window_seq(m.pci, |w: DeviceWindow| pci_region(w))
        + seq![ram_region(m, ram_hpa)]
}

/// The padded test-finisher size must fit the address space before a region
/// can even be stated; checked first during setup.
pub open spec fn test_pad_fits(m: MachineMeta) -> bool {
    match m.test_finisher_address {
        Some(w) => w.size + TEST_FINISHER_PAD <= usize::MAX,
        None => true,
    }
}

/// Law: the test-finisher window is installed padded — for a discovered
/// window of size `n`, the installed mapping size is exactly
/// `n + TEST_FINISHER_PAD`, and it stands first in the region list.
pub proof fn lemma_test_finisher_padded(m: MachineMeta, ram_hpa: usize, w: DeviceWindow)
    requires
        m.test_finisher_address == Some(w),
        w.size + TEST_FINISHER_PAD <= usize::MAX,
    ensures
        gpm_regions(m, ram_hpa)[0] == test_region(w),
        gpm_regions(m, ram_hpa)[0].size == w.size + TEST_FINISHER_PAD,
{
    assert(gpm_regions(m, ram_hpa)[0] == test_region(w));
}

/// Law: the platform-interrupt-controller window is installed with the fixed
/// size `PLIC_MAP_SIZE`, whatever size discovery reported for it.
pub proof fn lemma_plic_fixed_size(m: MachineMeta, ram_hpa: usize, w: DeviceWindow)
    requires
        m.plic == Some(w),
    ensures
        gpm_regions(m, ram_hpa).contains(plic_region(w)),
        plic_region(w).size == PLIC_MAP_SIZE,
{
    let rs = gpm_regions(m, ram_hpa);
    let k = opt_window_seq(m.test_finisher_address, |x: DeviceWindow| test_region(x)).len()
        + m.virtio@.len() + opt_window_seq(m.uart, |x: DeviceWindow| uart_region(x)).len()
        + opt_window_seq(m.clint, |x: DeviceWindow| clint_region(x)).len();
    assert(rs[k as int] == plic_region(w));
}

/// Law: the RAM window is the one and only region whose permissions include
/// read, write and execute — every device window is mapped without execute —
/// and it stands last in the region list.
pub proof fn lemma_ram_unique_rwx(m: MachineMeta, ram_hpa: usize)
    ensures
        gpm_regions(m, ram_hpa).len() >= 1,
        gpm_regions(m, ram_hpa).last() == ram_region(m, ram_hpa),
        forall|i: int|
            0 <= i < gpm_regions(m, ram_hpa).len() ==> {
                let f = (#[trigger] gpm_regions(m, ram_hpa)[i]).flags;
                (f.read && f.write && f.execute) <==> i == gpm_regions(m, ram_hpa).len() - 1
            },
{
    let rs = gpm_regions(m, ram_hpa);
    assert forall|i: int| 0 <= i < rs.len() implies {
        let f = (#[trigger] rs[i]).flags;
        (f.read && f.write && f.execute) <==> i == rs.len() - 1
    } by {
        if i < rs.len() - 1 {
            assert(!rs[i].flags.execute);
        } else {
            assert(rs[i] == ram_region(m, ram_hpa));
        }
    }
}

/// Builds the region list of `gpm_regions` as a vector, in order.
#[verifier::rlimit(100)]
pub fn build_region_list(m: &MachineMeta, ram_hpa: usize) -> (r: Result<
    Vec<GuestMemoryRegion>,
    HvError,
>)
    ensures
        match r {
            Ok(v) => test_pad_fits(*m) && v@ == gpm_regions(*m, ram_hpa),
            Err(e) => e == HvError::InvalidInput && !test_pad_fits(*m),
        },
{
    let mut v: Vec<GuestMemoryRegion> = Vec::new();
    if let Some(test) = m.test_finisher_address {
        if test.size > usize::MAX - TEST_FINISHER_PAD {
            return Err(HvError::InvalidInput);
        }
        v.push(GuestMemoryRegion {
            gpa: test.base_address,
            hpa: test.base_address,
            size: test.size + TEST_FINISHER_PAD,
            flags: MemFlags { read: true, write: true, execute: false, user: true },
        });
    }
    let nv = m.virtio.len();
    for i in 0..nv
        invariant
            nv == m.virtio@.len(),
            v@ == opt_window_seq(m.test_finisher_address, |w: DeviceWindow| test_region(w))
                + m.virtio@.take(i as int).map(|k: int, w: DeviceWindow| virtio_region(w)),
    {
        let w = m.virtio[i];
        v.push(GuestMemoryRegion {
            gpa: w.base_address,
            hpa: w.base_address,
            size: w.size,
            flags: MemFlags { read: true, write: true, execute: false, user: true },
        });
        proof {
            assert(m.virtio@.take(i + 1).map(|k: int, w: DeviceWindow| virtio_region(w))
                =~= m.virtio@.take(i as int).map(|k: int, w: DeviceWindow| virtio_region(w)).push(
                virtio_region(m.virtio@[i as int])));
            assert(v@ =~= opt_window_seq(
                m.test_finisher_address,
                |w: DeviceWindow| test_region(w),
            ) + m.virtio@.take(i + 1).map(|k: int, w: DeviceWindow| virtio_region(w)));
        }
    }
    proof {
        assert(m.virtio@.take(nv as int) =~= m.virtio@);
    }
    if let Some(uart) = m.uart {
        v.push(GuestMemoryRegion {
            gpa: uart.base_address,
            hpa: uart.base_address,
            size: UART_MAP_SIZE,
            flags: MemFlags { read: true, write: true, execute: false, user: true },
        });
    }
    if let Some(clint) = m.clint {
        v.push(GuestMemoryRegion {
            gpa: clint.base_address,
            hpa: clint.base_address,
            size: clint.size,
            flags: MemFlags { read: true, write: true, execute: false, user: true },
        });
    }
    if let Some(plic) = m.plic {
        v.push(GuestMemoryRegion {
            gpa: plic.base_address,
            hpa: plic.base_address,
            size: PLIC_MAP_SIZE,
            flags: MemFlags { read: true, write: true, execute: false, user: true },
        });
    }
    if let Some(pci) = m.pci {
        v.push(GuestMemoryRegion {
            gpa: pci.base_address,
            hpa: pci.base_address,
            size: pci.size,
            flags: MemFlags { read: true, write: true, execute: false, user: true },
        });
    }
    v.push(GuestMemoryRegion {
        gpa: m.physical_memory_offset,
        hpa: ram_hpa,
        size: m.physical_memory_size,
        flags: MemFlags { read: true, write: true, execute: true, user: true },
    });
    proof {
        assert(v@ =~= gpm_regions(*m, ram_hpa));
    }
    Ok(v)
}

/// Builds the guest physical memory set for discovered metadata `m`: an
/// empty set over `root`, then every window of `gpm_regions(m, ram_hpa)`
/// installed in order. `ram_hpa` is the host-physical base of the buffer the
/// surrounding system allocated to back guest RAM; `root` is the freshly
/// allocated nested-translation root.
///
/// Succeeds exactly when the padded test-finisher size fits the address
/// space and the whole region list is accepted (every region well-formed and
/// the list non-overlapping); any rejection is fatal to construction and
/// returns the rejection unchanged.
pub fn setup_gpm(m: &MachineMeta, ram_hpa: usize, root: usize) -> (r: Result<
    GuestPhysMemorySet,
    HvError,
>)
    ensures
        match r {
            Ok(set) => {
                &&& test_pad_fits(*m)
                &&& add_regions_spec(Seq::empty(), gpm_regions(*m, ram_hpa))
                    == Ok::<_, HvError>(set.regions_spec())
                &&& set.wf()
                &&& set.root_spec() == root as int
            },
            Err(e) => !test_pad_fits(*m) && e == HvError::InvalidInput
                || add_regions_spec(Seq::empty(), gpm_regions(*m, ram_hpa))
                    == Err::<Seq<GuestMemoryRegion>, _>(e),
        },
{
    let list = match build_region_list(m, ram_hpa) {
        Ok(list) => list,
        Err(e) => {
            return Err(e);
        }
    };
    let mut set = GuestPhysMemorySet::new(root);
    match set.map_regions(&list) {
        Ok(()) => Ok(set),
        Err(e) => Err(e),
    }
}

} // verus!
