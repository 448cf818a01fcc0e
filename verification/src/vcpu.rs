use vstd::prelude::*;

use crate::err::HvError;

verus! {

/// Number of general-purpose registers a virtual CPU carries.
pub const GPR_COUNT: usize = 32;

/// Register slot the first start argument goes to (the target's own id).
pub const GPR_A0: usize = 10;

/// Register slot the second start argument goes to (the opaque argument).
pub const GPR_A1: usize = 11;

/// Bit of the saved status register that records the guest privilege level
/// the trap came from: set means supervisor, clear means user.
pub const HSTATUS_SPVP_BIT: usize = 8;

/// Lifecycle state of one virtual CPU.
#[derive(Clone, Copy, Debug, PartialEq, Eq, Structural)]
pub enum VCpuState {
    /// Not yet runnable; initial state of every CPU but the boot CPU.
    Free,
    /// Runnable, waiting for a physical core to pick it up.
    Ready,
    /// Bound to a physical core, executing or being serviced after a trap.
    Running,
    /// Parked; no transition of this core leads here or away from here.
    Blocked,
}

/// The lifecycle only ever advances along `Free -> Ready -> Running`.
pub open spec fn vcpu_edge_ok(from: VCpuState, to: VCpuState) -> bool {
    ||| (from == VCpuState::Free && to == VCpuState::Ready)
    ||| (from == VCpuState::Ready && to == VCpuState::Running)
}

/// Law: the lifecycle order is a chain. Nothing ever leaves `Running` — in
/// particular no second `Ready -> Running` move can hit a running virtual
/// CPU — and nothing ever re-enters `Free`, so each virtual CPU is promoted
/// and bound at most once.
pub proof fn lemma_lifecycle_chain(s: VCpuState)
    ensures
        !vcpu_edge_ok(VCpuState::Running, s),
        !vcpu_edge_ok(s, VCpuState::Free),
        vcpu_edge_ok(VCpuState::Free, s) ==> s == VCpuState::Ready,
        vcpu_edge_ok(VCpuState::Ready, s) ==> s == VCpuState::Running,
{
}

/// The guest privilege level saved in `hstatus`, read out of the
/// supervisor-previous-virtual-privilege bit.
#[derive(Clone, Copy, Debug, PartialEq, Eq, Structural)]
pub enum PrivilegeLevel {
    Supervisor,
    User,
}

/// The privilege level the saved status register `h` records.
pub open spec fn priv_of_hstatus(h: usize) -> PrivilegeLevel {
    if (h >> HSTATUS_SPVP_BIT) & 1 == 1 {
        PrivilegeLevel::Supervisor
    } else {
        PrivilegeLevel::User
    }
}

/// Reads the guest privilege level out of a saved status register value.
pub fn privilege_from_hstatus(h: usize) -> (r: PrivilegeLevel)
    ensures
        r == priv_of_hstatus(h),
{
    if (h >> HSTATUS_SPVP_BIT) & 1 == 1 {
        PrivilegeLevel::Supervisor
    } else {
        PrivilegeLevel::User
    }
}

/// One schedulable execution context of the guest: identity, the saved
/// architecture register file, the trap context the hardware stores, and the
/// lifecycle state. Bound one-to-one to a physical core while running.
pub struct VCpu {
    /// Identity; equals this virtual CPU's index in the machine's list.
    pub id: usize,
    /// General-purpose registers, `GPR_COUNT` of them.
    pub gprs: Vec<usize>,
    /// Saved guest program counter.
    pub sepc: usize,
    /// Saved guest status register at the last trap.
    pub hstatus: usize,
    /// Hardware snapshot of the trapped instruction; zero when the hardware
    /// did not populate it and the instruction must be fetched from memory.
    pub htinst: u32,
    /// Nested-translation root installed for this virtual CPU.
    pub ept_root: usize,
    /// Whether a virtual supervisor external interrupt is pending, to be
    /// observed by the guest on its next entry.
    pub ext_interrupt_pending: bool,
    /// Lifecycle state.
    pub state: VCpuState,
}

impl VCpu {
    /// The register file always holds exactly `GPR_COUNT` slots.
    pub open spec fn wf(&self) -> bool {
        self.gprs@.len() == GPR_COUNT
    }

    /// A fresh virtual CPU: zeroed registers, program counter at `entry`,
    /// the boot CPU (id 0) born runnable, every other one idle until a
    /// dynamic processor start promotes it.
    pub fn new(id: usize, entry: usize) -> (r: VCpu)
        ensures
            r.wf(),
            r.id == id,
            r.gprs@ == Seq::new(GPR_COUNT as nat, |i: int| 0usize),
            r.sepc == entry,
            r.hstatus == 0,
            r.htinst == 0,
            r.ept_root == 0,
            !r.ext_interrupt_pending,
            r.state == if id == 0 {
                VCpuState::Ready
            } else {
                VCpuState::Free
            },
    {
        let mut gprs: Vec<usize> = Vec::new();
        let mut i: usize = 0;
        while i < GPR_COUNT
            invariant
                i <= GPR_COUNT,
                gprs@ =~= Seq::new(i as nat, |k: int| 0usize),
            decreases GPR_COUNT - i,
        {
            gprs.push(0);
            proof {
                assert(gprs@ =~= Seq::new((i + 1) as nat, |k: int| 0usize));
            }
            i += 1;
        }
        let state = if id == 0 {
            VCpuState::Ready
        } else {
            VCpuState::Free
        };
        VCpu {
            id,
            gprs,
            sepc: entry,
            hstatus: 0,
            htinst: 0,
            ept_root: 0,
            ext_interrupt_pending: false,
            state,
        }
    }

    /// Reads one general-purpose register.
    pub fn get_gpr(&self, index: usize) -> (r: usize)
        requires
            self.wf(),
            index < GPR_COUNT,
        ensures
            r == self.gprs@[index as int],
    {
        self.gprs[index]
    }

    /// Writes one general-purpose register; nothing else moves.
    pub fn set_gpr(&mut self, index: usize, value: usize)
        requires
            old(self).wf(),
            index < GPR_COUNT,
        ensures
            final(self).wf(),
            final(self).gprs@ == old(self).gprs@.update(index as int, value),
            *final(self) == (VCpu { gprs: final(self).gprs, ..*old(self) }),
    {
        self.gprs.set(index, value);
    }

    /// Moves the saved program counter to `entry`; used by the dynamic
    /// processor-start path to aim a freshly promoted virtual CPU.
    pub fn set_entry(&mut self, entry: usize)
        ensures
            *final(self) == (VCpu { sepc: entry, ..*old(self) }),
    {
        self.sepc = entry;
    }

    /// Advances the saved program counter past the instruction just
    /// emulated. The program counter never sits close enough to the top of
    /// the address space for a decoded length to wrap it.
    pub fn advance_pc(&mut self, len: usize)
        requires
            old(self).sepc + len <= usize::MAX,
        ensures
            *final(self) == (VCpu { sepc: (old(self).sepc + len) as usize, ..*old(self) }),
    {
        self.sepc = self.sepc + len;
    }

    /// Marks a virtual supervisor external interrupt pending, so the next
    /// guest entry observes it.
    pub fn set_ext_interrupt_pending(&mut self)
        ensures
            *final(self) == (VCpu { ext_interrupt_pending: true, ..*old(self) }),
    {
        self.ext_interrupt_pending = true;
    }

    /// Installs the machine's nested-translation root for this virtual CPU.
    pub fn set_ept_root(&mut self, root: usize)
        ensures
            *final(self) == (VCpu { ept_root: root, ..*old(self) }),
    {
        self.ept_root = root;
    }

    /// Moves the lifecycle from `from` to `to`. Succeeds exactly when the
    /// current state is `from` and the move follows the lifecycle order
    /// `Free -> Ready -> Running`; any other request is a broken lifecycle
    /// rule and leaves the virtual CPU untouched.
    pub fn transition_state(&mut self, from: VCpuState, to: VCpuState) -> (r: Result<(), HvError>)
        ensures
            match r {
                Ok(()) => old(self).state == from && vcpu_edge_ok(from, to) && *final(self)
                    == (VCpu { state: to, ..*old(self) }),
                Err(e) => {
                    &&& e == HvError::BadState
                    &&& !(old(self).state == from && vcpu_edge_ok(from, to))
                    &&& *final(self) == *old(self)
                },
            },
    {
        let edge_ok = (matches!(from, VCpuState::Free) && matches!(to, VCpuState::Ready)) || (
        matches!(from, VCpuState::Ready) && matches!(to, VCpuState::Running));
        let here = matches!((self.state, from), (VCpuState::Free, VCpuState::Free) | (
            VCpuState::Ready,
            VCpuState::Ready,
        ) | (VCpuState::Running, VCpuState::Running) | (VCpuState::Blocked, VCpuState::Blocked));
        if here && edge_ok {
            self.state = to;
            Ok(())
        } else {
            Err(HvError::BadState)
        }
    }
}

} // verus!
