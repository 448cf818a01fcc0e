use vstd::prelude::*;

use crate::device_list::{vmexit_post, DeviceList, VmExit, PLIC_BASE};
use crate::err::HvError;
use crate::vcpu::{VCpu, VCpuState, GPR_COUNT};

verus! {

/// Construction parameters of one virtual machine: how many virtual CPUs it
/// owns and where its boot CPU and its secondary CPUs start executing.
#[derive(Clone, Copy, Debug, PartialEq, Eq, Structural)]
pub struct AxVMConfig {
    /// Number of virtual CPUs; one per physical core, at least one.
    pub cpu_count: usize,
    /// Guest-physical entry point of the boot CPU.
    pub bsp_entry: usize,
    /// Guest-physical entry point of every secondary CPU.
    pub ap_entry: usize,
}

/// What one poll of `sync_vcpu` tells the calling physical core.
#[derive(Clone, Copy, Debug, PartialEq, Eq, Structural)]
pub enum SyncPoll {
    /// The virtual CPU was ready and is now running on this core.
    Proceed,
    /// The virtual CPU is not runnable yet; poll again.
    Wait,
}

/// A virtual machine: identity, the nested-translation root every virtual
/// CPU shares, the fixed list of virtual CPUs (indexed by id, never resized
/// after construction), and the emulated devices.
pub struct AxVM {
    /// Identity of this machine.
    pub id: usize,
    /// Root handle of the shared nested translation, immutable once built.
    pub ept_root: usize,
    /// The virtual CPUs, one per configured core; only per-element state
    /// mutates after construction.
    pub vcpu_list: Vec<VCpu>,
    /// The emulated devices of this machine.
    pub device_list: DeviceList,
}

impl AxVM {
    /// Every virtual CPU is well-formed and sits at the index its id names,
    /// and the device state is sound.
    pub open spec fn wf(&self) -> bool {
        &&& forall|i: int|
            0 <= i < self.vcpu_list@.len() ==> (#[trigger] self.vcpu_list@[i]).wf()
                && self.vcpu_list@[i].id == i
        &&& self.device_list.plic.wf()
    }

    /// Builds a machine: one virtual CPU per configured core, the boot CPU
    /// aimed at the boot entry and born ready, every secondary aimed at the
    /// secondary entry and born free, all sharing `ept_root`; and a fresh
    /// device list. Construction is atomic: it fails only on a CPU count of
    /// zero, and then nothing is published.
    pub fn new(config: AxVMConfig, id: usize, ept_root: usize) -> (r: Result<AxVM, HvError>)
        ensures
            match r {
                Ok(vm) => {
                    &&& config.cpu_count >= 1
                    &&& vm.wf()
                    &&& vm.id == id
                    &&& vm.ept_root == ept_root
                    &&& vm.vcpu_list@.len() == config.cpu_count
                    &&& forall|i: int|
                        0 <= i < config.cpu_count ==> #[trigger] vm.vcpu_list@[i] == (VCpu {
                            id: i as usize,
                            gprs: vm.vcpu_list@[i].gprs,
                            sepc: if i == 0 {
                                config.bsp_entry
                            } else {
                                config.ap_entry
                            },
                            hstatus: 0,
                            htinst: 0,
                            ept_root: ept_root,
                            ext_interrupt_pending: false,
                            state: if i == 0 {
                                VCpuState::Ready
                            } else {
                                VCpuState::Free
                            },
                        })
                    &&& forall|i: int|
                        0 <= i < config.cpu_count ==> (#[trigger] vm.vcpu_list@[i]).gprs@
                            == Seq::new(GPR_COUNT as nat, |k: int| 0usize)
                    &&& vm.device_list.plic.base_spec() == PLIC_BASE as int
                    &&& vm.device_list.plic.regs_map() == Map::<int, u32>::empty()
                    &&& vm.device_list.plic.claims_spec() == seq![0u32, 0u32]
                },
                Err(e) => e == HvError::InvalidInput && config.cpu_count == 0,
            },
    {
        if config.cpu_count == 0 {
            return Err(HvError::InvalidInput);
        }
        let mut vcpu_list: Vec<VCpu> = Vec::new();
        let mut i: usize = 0;
        while i < config.cpu_count
            invariant
                i <= config.cpu_count,
                vcpu_list@.len() == i,
                forall|k: int|
                    0 <= k < i ==> #[trigger] vcpu_list@[k] == (VCpu {
                        id: k as usize,
                        gprs: vcpu_list@[k].gprs,
                        sepc: if k == 0 {
                            config.bsp_entry
                        } else {
                            config.ap_entry
                        },
                        hstatus: 0,
                        htinst: 0,
                        ept_root: ept_root,
                        ext_interrupt_pending: false,
                        state: if k == 0 {
                            VCpuState::Ready
                        } else {
                            VCpuState::Free
                        },
                    }),
                forall|k: int|
                    0 <= k < i ==> (#[trigger] vcpu_list@[k]).gprs@ == Seq::new(
                        GPR_COUNT as nat,
                        |j: int| 0usize,
                    ),
            decreases config.cpu_count - i,
        {
            let entry = if i == 0 {
                config.bsp_entry
            } else {
                config.ap_entry
            };
            let mut vcpu = VCpu::new(i, entry);
            vcpu.set_ept_root(ept_root);
            vcpu_list.push(vcpu);
            i += 1;
        }
        Ok(AxVM { id, ept_root, vcpu_list, device_list: DeviceList::new() })
    }

    /// This machine's identity.
    pub fn id(&self) -> (r: usize)
        ensures
            r == self.id,
    {
        self.id
    }

    /// The virtual CPU that `vcpu_id` names, or nothing for an unknown id.
    pub fn vcpu(&self, vcpu_id: usize) -> (r: Option<&VCpu>)
        ensures
            match r {
                Some(v) => vcpu_id < self.vcpu_list@.len() && *v == self.vcpu_list@[vcpu_id as int],
                None => vcpu_id >= self.vcpu_list@.len(),
            },
    {
        if vcpu_id < self.vcpu_list.len() {
            Some(&self.vcpu_list[vcpu_id])
        } else {
            None
        }
    }

    /// The whole virtual CPU list, indexed by id.
    pub fn vcpu_list(&self) -> (r: &Vec<VCpu>)
        ensures
            r@ == self.vcpu_list@,
    {
        &self.vcpu_list
    }

    /// The shared nested-translation root handle.
    pub fn ept_root(&self) -> (r: usize)
        ensures
            r == self.ept_root,
    {
        self.ept_root
    }

    /// The devices of this machine, for inspection.
    pub fn get_device_list(&self) -> (r: &DeviceList)
        ensures
            *r == self.device_list,
    {
        &self.device_list
    }

    /// Prepares the virtual CPU `vcpu_id` for execution on the calling
    /// physical core: rejects an unknown id, else installs the machine's
    /// nested-translation root into that virtual CPU and changes nothing
    /// else. The caller then polls `sync_vcpu` until the CPU is runnable and
    /// runs the execute/trap loop, dispatching each trap to
    /// `handle_vmexit`.
    pub fn run_vcpu(&mut self, vcpu_id: usize) -> (r: Result<(), HvError>)
        requires
            old(self).wf(),
        ensures
            final(self).wf(),
            match r {
                Ok(()) => {
                    &&& vcpu_id < old(self).vcpu_list@.len()
                    &&& final(self).vcpu_list@ == old(self).vcpu_list@.update(
                        vcpu_id as int,
                        (VCpu {
                            ept_root: old(self).ept_root,
                            ..old(self).vcpu_list@[vcpu_id as int]
                        }),
                    )
                    &&& *final(self) == (AxVM {
                        vcpu_list: final(self).vcpu_list,
                        ..*old(self)
                    })
                },
                Err(e) => {
                    &&& e == HvError::InvalidInput
                    &&& vcpu_id >= old(self).vcpu_list@.len()
                    &&& *final(self) == *old(self)
                },
            },
    {
        if vcpu_id >= self.vcpu_list.len() {
            return Err(HvError::InvalidInput);
        }
        let root = self.ept_root;
        let mut v = self.vcpu_list.remove(vcpu_id);
        v.set_ept_root(root);
        self.vcpu_list.insert(vcpu_id, v);
        proof {
            assert(final(self).vcpu_list@ =~= old(self).vcpu_list@.update(
                vcpu_id as int,
                (VCpu { ept_root: old(self).ept_root, ..old(self).vcpu_list@[vcpu_id as int] }),
            ));
        }
        Ok(())
    }

    /// One poll of the bring-up handshake for `vcpu_id`: an unknown id is
    /// rejected; a ready virtual CPU becomes running on the calling core and
    /// the core proceeds into its execute/trap loop; one already running is
    /// a broken single-binder rule (two cores cannot share one virtual CPU)
    /// and fatal; anything else asks the caller to poll again. Only this
    /// poll ever moves a virtual CPU to running.
    pub fn sync_vcpu(&mut self, vcpu_id: usize) -> (r: Result<SyncPoll, HvError>)
        requires
            old(self).wf(),
        ensures
            final(self).wf(),
            match r {
                Ok(SyncPoll::Proceed) => {
                    &&& vcpu_id < old(self).vcpu_list@.len()
                    &&& old(self).vcpu_list@[vcpu_id as int].state == VCpuState::Ready
                    &&& final(self).vcpu_list@ == old(self).vcpu_list@.update(
                        vcpu_id as int,
                        (VCpu {
                            state: VCpuState::Running,
                            ..old(self).vcpu_list@[vcpu_id as int]
                        }),
                    )
                    &&& *final(self) == (AxVM {
                        vcpu_list: final(self).vcpu_list,
                        ..*old(self)
                    })
                },
                Ok(SyncPoll::Wait) => {
                    &&& vcpu_id < old(self).vcpu_list@.len()
                    &&& old(self).vcpu_list@[vcpu_id as int].state != VCpuState::Ready
                    &&& old(self).vcpu_list@[vcpu_id as int].state != VCpuState::Running
                    &&& *final(self) == *old(self)
                },
                Err(e) => {
                    &&& *final(self) == *old(self)
                    &&& if vcpu_id >= old(self).vcpu_list@.len() {
                        e == HvError::InvalidInput
                    } else {
                        e == HvError::BadState && old(self).vcpu_list@[vcpu_id as int].state
                            == VCpuState::Running
                    }
                },
            },
    {
        if vcpu_id >= self.vcpu_list.len() {
            return Err(HvError::InvalidInput);
        }
        let state = self.vcpu_list[vcpu_id].state;
        match state {
            VCpuState::Ready => {
                let mut v = self.vcpu_list.remove(vcpu_id);
                match v.transition_state(VCpuState::Ready, VCpuState::Running) {
                    Ok(()) => {},
                    Err(_) => {
                        proof {
                            assert(false);
                        }
                    },
                }
                self.vcpu_list.insert(vcpu_id, v);
                proof {
                    assert(final(self).vcpu_list@ =~= old(self).vcpu_list@.update(
                        vcpu_id as int,
                        (VCpu {
                            state: VCpuState::Running,
                            ..old(self).vcpu_list@[vcpu_id as int]
                        }),
                    ));
                }
                Ok(SyncPoll::Proceed)
            },
            VCpuState::Running => Err(HvError::BadState),
            _ => Ok(SyncPoll::Wait),
        }
    }

    /// Runs the boot virtual CPU's preparation (id 0). Requires hardware
    /// virtualization support, reported by the per-core initialization
    /// primitive; without it the platform is unsupported and nothing moves.
    pub fn boot(&mut self, hw_support: bool) -> (r: Result<(), HvError>)
        requires
            old(self).wf(),
        ensures
            final(self).wf(),
            !hw_support ==> r == Err::<(), _>(HvError::Unsupported) && *final(self) == *old(self),
            hw_support ==> match r {
                Ok(()) => {
                    &&& old(self).vcpu_list@.len() >= 1
                    &&& final(self).vcpu_list@ == old(self).vcpu_list@.update(
                        0,
                        (VCpu { ept_root: old(self).ept_root, ..old(self).vcpu_list@[0] }),
                    )
                    &&& *final(self) == (AxVM {
                        vcpu_list: final(self).vcpu_list,
                        ..*old(self)
                    })
                },
                Err(e) => {
                    &&& e == HvError::InvalidInput
                    &&& old(self).vcpu_list@.len() == 0
                    &&& *final(self) == *old(self)
                },
            },
    {
        if !hw_support {
            Err(HvError::Unsupported)
        } else {
            self.run_vcpu(0)
        }
    }

    /// Dispatches one trap that the hardware run primitive reported for the
    /// virtual CPU `vcpu_id`.
    ///
    /// A dynamic processor start is routed to its *target* virtual CPU: an
    /// unknown target id is rejected; a target that is not free any more is
    /// a broken lifecycle rule, rejected before anything is written, so live
    /// register state is never overwritten; a free target gets its argument
    /// registers and entry point set and moves to ready, to be picked up by
    /// the physical core that polls for it. Every other trap reason is
    /// served on `vcpu_id` itself with the device-list dispatch, whose whole
    /// effect `vmexit_post` spells out. A failure mutates nothing.
    pub fn handle_vmexit(&mut self, vcpu_id: usize, exit: VmExit, fetched_inst: u32) -> (r: Result<
        (),
        HvError,
    >)
        requires
            old(self).wf(),
            vcpu_id < old(self).vcpu_list@.len() ==> old(self).vcpu_list@[vcpu_id as int].sepc + 4
                <= usize::MAX,
        ensures
            final(self).wf(),
            final(self).id == old(self).id,
            final(self).ept_root == old(self).ept_root,
            match exit {
                VmExit::HartStart { hartid, start_addr, opaque } => {
                    if vcpu_id >= old(self).vcpu_list@.len() || hartid
                        >= old(self).vcpu_list@.len() {
                        r == Err::<(), _>(HvError::InvalidInput) && *final(self) == *old(self)
                    } else if old(self).vcpu_list@[hartid as int].state != VCpuState::Free {
                        r == Err::<(), _>(HvError::BadState) && *final(self) == *old(self)
                    } else {
                        &&& r == Ok::<_, HvError>(())
                        &&& final(self).device_list == old(self).device_list
                        &&& final(self).vcpu_list@ == old(self).vcpu_list@.update(
                            hartid as int,
                            final(self).vcpu_list@[hartid as int],
                        )
                        &&& final(self).vcpu_list@[hartid as int] == (VCpu {
                            sepc: start_addr,
                            gprs: final(self).vcpu_list@[hartid as int].gprs,
                            state: VCpuState::Ready,
                            ..old(self).vcpu_list@[hartid as int]
                        })
                        &&& final(self).vcpu_list@[hartid as int].gprs@ == old(
                            self,
                        ).vcpu_list@[hartid as int].gprs@.update(
                            crate::vcpu::GPR_A0 as int,
                            hartid,
                        ).update(crate::vcpu::GPR_A1 as int, opaque)
                    }
                },
                _ => {
                    if vcpu_id >= old(self).vcpu_list@.len() {
                        r == Err::<(), _>(HvError::InvalidInput) && *final(self) == *old(self)
                    } else {
                        &&& final(self).vcpu_list@ == old(self).vcpu_list@.update(
                            vcpu_id as int,
                            final(self).vcpu_list@[vcpu_id as int],
                        )
                        &&& vmexit_post(
                            old(self).device_list,
                            final(self).device_list,
                            old(self).vcpu_list@[vcpu_id as int],
                            final(self).vcpu_list@[vcpu_id as int],
                            exit,
                            fetched_inst,
                            r,
                        )
                        &&& (r is Err ==> final(self).vcpu_list@ == old(self).vcpu_list@
                            && final(self).device_list == old(self).device_list)
                    }
                },
            },
    {
        if vcpu_id >= self.vcpu_list.len() {
            return Err(HvError::InvalidInput);
        }
        match exit {
            VmExit::HartStart { hartid, start_addr: _, opaque: _ } => {
                if hartid >= self.vcpu_list.len() {
                    return Err(HvError::InvalidInput);
                }
                let target_state = self.vcpu_list[hartid].state;
                if !matches!(target_state, VCpuState::Free) {
                    return Err(HvError::BadState);
                }
                let mut target = self.vcpu_list.remove(hartid);
                let res = self.device_list.vmexit_handler(&mut target, exit, fetched_inst);
                match res {
                    Ok(()) => {},
                    Err(_) => {
                        proof {
                            assert(false);
                        }
                    },
                }
                match target.transition_state(VCpuState::Free, VCpuState::Ready) {
                    Ok(()) => {},
                    Err(_) => {
                        proof {
                            assert(false);
                        }
                    },
                }
                self.vcpu_list.insert(hartid, target);
                proof {
                    assert(final(self).vcpu_list@ =~= old(self).vcpu_list@.update(
                        hartid as int,
                        final(self).vcpu_list@[hartid as int],
                    ));
                }
                Ok(())
            },
            _ => {
                let mut v = self.vcpu_list.remove(vcpu_id);
                let res = self.device_list.vmexit_handler(&mut v, exit, fetched_inst);
                self.vcpu_list.insert(vcpu_id, v);
                proof {
                    assert(final(self).vcpu_list@ =~= old(self).vcpu_list@.update(
                        vcpu_id as int,
                        final(self).vcpu_list@[vcpu_id as int],
                    ));
                    if res is Err {
                        assert(final(self).vcpu_list@ =~= old(self).vcpu_list@);
                    }
                }
                res
            },
        }
    }
}

} // verus!
