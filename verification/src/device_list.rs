use vstd::prelude::*;

use crate::decode::{decode_mmio, inst_len_spec, is_c_lw, is_c_sw, is_c_swsp, is_lw32, is_sw32,
    load_rd, mmio_inst_len, rv_decode_ok, store_rs2, MmioOp};
use crate::err::HvError;
use crate::plic::{PlicState, PLIC_SUPERVISOR_CONTEXT};
use crate::vcpu::{priv_of_hstatus, privilege_from_hstatus, PrivilegeLevel, VCpu};

verus! {

/// Guest-physical base the emulated interrupt controller sits at on this
/// platform.
pub const PLIC_BASE: usize = 0xC00_0000;

/// One trap reason, as the hardware run primitive reports it back, already
/// read out into plain values: the faulting guest-physical address, the
/// claimed external-interrupt number, or the dynamic processor-start
/// arguments the guest passed.
#[derive(Clone, Copy, Debug, PartialEq, Eq, Structural)]
pub enum VmExit {
    /// A guest access faulted in nested translation at `addr`.
    NestedPageFault { addr: usize },
    /// An external interrupt arrived; `irq` is what the hardware
    /// claim/complete register handed out for the supervisor context.
    ExternalInterrupt { irq: u32 },
    /// The guest asked to start the virtual CPU `hartid` at `start_addr`
    /// with `opaque` as its argument.
    HartStart { hartid: usize, start_addr: usize, opaque: usize },
    /// Any other trap reason: ignored, the guest is resumed.
    Other,
}

/// The instruction bits a nested page fault is serviced with: the hardware
/// snapshot when it was populated, else what was fetched from guest memory
/// at the saved program counter.
pub open spec fn resolved_inst(v: VCpu, fetched: u32) -> u32 {
    if v.htinst != 0 {
        v.htinst
    } else {
        fetched
    }
}

/// The bits handed to the decoder: a two-byte instruction is cut down to its
/// low half-word first.
pub open spec fn work_inst(inst: u32) -> u32 {
    if inst_len_spec(inst as u16) == 2 {
        (inst as u16) as u32
    } else {
        inst
    }
}

/// The announced instruction length is one the emulation path serves.
pub open spec fn len_supported(inst: u32) -> bool {
    inst_len_spec(inst as u16) == 2 || inst_len_spec(inst as u16) == 4
}

/// The decoded instruction is a word store.
pub open spec fn is_word_store(w: u32) -> bool {
    is_sw32(w) || is_c_sw(w) || is_c_swsp(w)
}

/// The decoded instruction is a word load.
pub open spec fn is_word_load(w: u32) -> bool {
    is_lw32(w) || is_c_lw(w)
}

/// What a word load at `addr` reads out of the emulated register file.
pub open spec fn plic_read_val(p: PlicState, addr: usize) -> u32 {
    if p.regs_map().dom().contains(addr - p.base_spec()) {
        p.regs_map()[addr - p.base_spec()]
    } else {
        0u32
    }
}

/// The whole effect one trap dispatch has: how the device state and the
/// serviced virtual CPU after the call (`d1`, `v1`) relate to the state
/// before it (`d0`, `v0`), per trap reason, and which result comes back.
pub open spec fn vmexit_post(
    d0: DeviceList,
    d1: DeviceList,
    v0: VCpu,
    v1: VCpu,
    exit: VmExit,
    fetched: u32,
    r: Result<(), HvError>,
) -> bool {
    match exit {
        VmExit::NestedPageFault { addr } => {
            let inst = resolved_inst(v0, fetched);
            let w = work_inst(inst);
            let len = inst_len_spec(inst as u16);
            if priv_of_hstatus(v0.hstatus) != PrivilegeLevel::Supervisor {
                r == Err::<(), _>(HvError::Unsupported) && d1 == d0
                    && v1 == v0
            } else if !d0.plic.in_window(addr as int) {
                r == Err::<(), _>(HvError::BadAddress) && d1 == d0
                    && v1 == v0
            } else if !len_supported(inst) {
                r == Err::<(), _>(HvError::BadState) && d1 == d0
                    && v1 == v0
            } else if is_word_store(w) {
                &&& r == Ok::<_, HvError>(())
                &&& d1.plic.regs_map() == d0.plic.regs_map().insert(
                    addr - d0.plic.base_spec(),
                    v0.gprs@[store_rs2(w)] as u32,
                )
                &&& d1.plic.claims_spec() == d0.plic.claims_spec()
                &&& d1.plic.base_spec() == d0.plic.base_spec()
                &&& v1 == (VCpu {
                    sepc: (v0.sepc + len) as usize,
                    ..v0
                })
            } else if is_word_load(w) {
                &&& r == Ok::<_, HvError>(())
                &&& d1 == d0
                &&& v1.gprs@ == v0.gprs@.update(
                    load_rd(w),
                    plic_read_val(d0.plic, addr) as usize,
                )
                &&& v1 == (VCpu {
                    sepc: (v0.sepc + len) as usize,
                    gprs: v1.gprs,
                    ..v0
                })
            } else {
                &&& d1 == d0
                &&& v1 == v0
                &&& r == (if rv_decode_ok(w) {
                    Err::<(), _>(HvError::BadAddress)
                } else {
                    Err::<(), _>(HvError::InvalidData)
                })
            }
        },
        VmExit::ExternalInterrupt { irq } => {
            if irq == 0 {
                r == Err::<(), _>(HvError::BadState) && d1 == d0
                    && v1 == v0
            } else {
                &&& r == Ok::<_, HvError>(())
                &&& d1.plic.claims_spec() == d0.plic.claims_spec().update(
                    PLIC_SUPERVISOR_CONTEXT as int,
                    irq,
                )
                &&& d1.plic.regs_map() == d0.plic.regs_map()
                &&& d1.plic.base_spec() == d0.plic.base_spec()
                &&& v1 == (VCpu { ext_interrupt_pending: true, ..v0 })
            }
        },
        VmExit::HartStart { hartid, start_addr, opaque } => {
            &&& r == Ok::<_, HvError>(())
            &&& d1 == d0
            &&& v1.gprs@ == v0.gprs@.update(
                crate::vcpu::GPR_A0 as int,
                hartid,
            ).update(crate::vcpu::GPR_A1 as int, opaque)
            &&& v1 == (VCpu {
                sepc: start_addr,
                gprs: v1.gprs,
                ..v0
            })
        },
        VmExit::Other => r == Ok::<_, HvError>(()) && d1 == d0
            && v1 == v0,
    }
}

/// Law: an emulated word store is observable and precisely paced. When a
/// nested page fault inside the interrupt controller's window is dispatched
/// with a decoded word store, reading the register file at the fault address
/// afterwards returns exactly the value the named source register held, and
/// the program counter advanced by exactly the decoded instruction length
/// (two or four bytes).
pub proof fn lemma_store_visible(
    d0: DeviceList,
    d1: DeviceList,
    v0: VCpu,
    v1: VCpu,
    addr: usize,
    fetched: u32,
)
    requires
        vmexit_post(d0, d1, v0, v1, VmExit::NestedPageFault { addr }, fetched, Ok(())),
        priv_of_hstatus(v0.hstatus) == PrivilegeLevel::Supervisor,
        d0.plic.in_window(addr as int),
        len_supported(resolved_inst(v0, fetched)),
        is_word_store(work_inst(resolved_inst(v0, fetched))),
    ensures
        plic_read_val(d1.plic, addr) == v0.gprs@[store_rs2(work_inst(resolved_inst(v0, fetched)))]
            as u32,
        v1.sepc == (v0.sepc + inst_len_spec(resolved_inst(v0, fetched) as u16)) as usize,
        inst_len_spec(resolved_inst(v0, fetched) as u16) == 2 || inst_len_spec(
            resolved_inst(v0, fetched) as u16,
        ) == 4,
{
    assert(d1.plic.regs_map().dom().contains(addr - d1.plic.base_spec()));
}

/// The devices that belong to one virtual machine: here, the emulated
/// platform interrupt controller.
pub struct DeviceList {
    /// Emulated interrupt-controller state.
    pub plic: PlicState,
}

impl DeviceList {
    /// A fresh device list: the interrupt controller's emulated window at
    /// its platform base, all registers and latches zero.
    pub fn new() -> (r: DeviceList)
        ensures
            r.plic.wf(),
            r.plic.base_spec() == PLIC_BASE as int,
            r.plic.regs_map() == Map::<int, u32>::empty(),
            r.plic.claims_spec() == seq![0u32, 0u32],
    {
        DeviceList { plic: PlicState::new(PLIC_BASE) }
    }

    /// Services one nested page fault inside the interrupt controller's
    /// window: decodes the trapped instruction and emulates a word store
    /// into, or a word load out of, the register file. Returns the decoded
    /// instruction length on success so the caller can advance the program
    /// counter. Anything but a word access is fatal: an unsupported length
    /// or an undecodable instruction reports corrupt state or data, a
    /// decodable instruction of any other shape reports a bad address; a
    /// failure mutates nothing.
    fn handle_plic(&mut self, vcpu: &mut VCpu, fault_addr: usize, inst: u32) -> (r: Result<
        usize,
        HvError,
    >)
        requires
            old(self).plic.wf(),
            old(vcpu).wf(),
            old(self).plic.in_window(fault_addr as int),
        ensures
            final(self).plic.wf(),
            final(vcpu).wf(),
            final(self).plic.base_spec() == old(self).plic.base_spec(),
            !len_supported(inst) ==> r == Err::<usize, _>(HvError::BadState) && *final(self)
                == *old(self) && *final(vcpu) == *old(vcpu),
            len_supported(inst) && is_word_store(work_inst(inst)) ==> {
                &&& r == Ok::<_, HvError>(inst_len_spec(inst as u16))
                &&& final(self).plic.regs_map() == old(self).plic.regs_map().insert(
                    fault_addr - old(self).plic.base_spec(),
                    old(vcpu).gprs@[store_rs2(work_inst(inst))] as u32,
                )
                &&& final(self).plic.claims_spec() == old(self).plic.claims_spec()
                &&& *final(vcpu) == *old(vcpu)
            },
            len_supported(inst) && is_word_load(work_inst(inst)) ==> {
                &&& r == Ok::<_, HvError>(inst_len_spec(inst as u16))
                &&& *final(self) == *old(self)
                &&& final(vcpu).gprs@ == old(vcpu).gprs@.update(
                    load_rd(work_inst(inst)),
                    plic_read_val(old(self).plic, fault_addr) as usize,
                )
                &&& *final(vcpu) == (VCpu { gprs: final(vcpu).gprs, ..*old(vcpu) })
            },
            len_supported(inst) && !is_word_store(work_inst(inst)) && !is_word_load(
                work_inst(inst),
            ) ==> {
                &&& *final(self) == *old(self)
                &&& *final(vcpu) == *old(vcpu)
                &&& r == (if rv_decode_ok(work_inst(inst)) {
                    Err::<usize, _>(HvError::BadAddress)
                } else {
                    Err::<usize, _>(HvError::InvalidData)
                })
            },
    {
        let len = match mmio_inst_len(inst) {
            Some(len) => len,
            None => {
                return Err(HvError::BadState);
            },
        };
        let w = if len == 2 {
            (inst as u16) as u32
        } else {
            inst
        };
        match decode_mmio(w) {
            MmioOp::Store { rs2 } => {
                let val = vcpu.get_gpr(rs2);
                self.plic.write_u32(fault_addr, val as u32);
                proof {
                    crate::decode::lemma_store_rs2_range(w);
                }
                Ok(len)
            },
            MmioOp::Load { rd } => {
                let val = self.plic.read_u32(fault_addr);
                vcpu.set_gpr(rd, val as usize);
                proof {
                    crate::decode::lemma_load_rd_range(w);
                }
                Ok(len)
            },
            MmioOp::OtherInstruction => Err(HvError::BadAddress),
            MmioOp::Undecodable => Err(HvError::InvalidData),
        }
    }

    /// Routes one trap to its service path and applies its whole effect, as
    /// spelled out per trap reason below.
    ///
    /// `vcpu` is the virtual CPU the trap is serviced on behalf of: the
    /// trapping one, except for a dynamic processor start, where the caller
    /// passes the *target* virtual CPU (and owns checking, before calling,
    /// that the target is still free).
    ///
    /// A nested page fault from guest user level is unsupported; one outside
    /// the interrupt controller's window is a bad address (there is no other
    /// emulated window); one inside it is served by the word-access
    /// emulation, and the program counter then advances by exactly the
    /// decoded instruction length. An external interrupt must carry a
    /// non-zero claimed number; it is latched for the supervisor context and
    /// flagged pending for the guest. A dynamic processor start writes the
    /// target's two argument registers and its program counter. Every other
    /// trap reason is ignored. A failure mutates nothing.
    pub fn vmexit_handler(&mut self, vcpu: &mut VCpu, exit: VmExit, fetched_inst: u32) -> (r:
        Result<(), HvError>)
        requires
            old(self).plic.wf(),
            old(vcpu).wf(),
            exit is NestedPageFault ==> old(vcpu).sepc + 4 <= usize::MAX,
        ensures
            final(self).plic.wf(),
            final(vcpu).wf(),
            final(vcpu).id == old(vcpu).id,
            vmexit_post(*old(self), *final(self), *old(vcpu), *final(vcpu), exit, fetched_inst, r),
    {
        match exit {
            VmExit::NestedPageFault { addr } => {
                let lvl = privilege_from_hstatus(vcpu.hstatus);
                match lvl {
                    PrivilegeLevel::User => Err(HvError::Unsupported),
                    PrivilegeLevel::Supervisor => {
                        let inst = if vcpu.htinst != 0 {
                            vcpu.htinst
                        } else {
                            fetched_inst
                        };
                        let base = self.plic.base();
                        if addr >= base && addr - base < crate::plic::PLIC_WINDOW {
                            match self.handle_plic(vcpu, addr, inst) {
                                Ok(len) => {
                                    vcpu.advance_pc(len);
                                    Ok(())
                                },
                                Err(e) => Err(e),
                            }
                        } else {
                            Err(HvError::BadAddress)
                        }
                    },
                }
            },
            VmExit::ExternalInterrupt { irq } => {
                if irq == 0 {
                    return Err(HvError::BadState);
                }
                self.plic.record_claim(PLIC_SUPERVISOR_CONTEXT, irq);
                vcpu.set_ext_interrupt_pending();
                Ok(())
            },
            VmExit::HartStart { hartid, start_addr, opaque } => {
                vcpu.set_gpr(crate::vcpu::GPR_A0, hartid);
                vcpu.set_gpr(crate::vcpu::GPR_A1, opaque);
                vcpu.set_entry(start_addr);
                Ok(())
            },
            VmExit::Other => Ok(()),
        }
    }
}

} // verus!
