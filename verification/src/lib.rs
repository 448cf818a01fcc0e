//! Core of a bare-metal hypervisor: guest-physical memory layout, the
//! virtual-CPU lifecycle, and the VM-exit dispatch path that emulates the
//! platform interrupt controller and guest-initiated secondary-core start.
//!
//! Hardware services (the nested-translation walker, the trap vector, the
//! physical allocator, firmware-blob parsing) are collaborators of this
//! library: they run outside it and exchange plain values with it.

pub mod barrier;
pub mod decode;
pub mod device_list;
pub mod err;
pub mod gpm;
pub mod meta;
pub mod plic;
pub mod region;
pub mod vcpu;
pub mod vm;
