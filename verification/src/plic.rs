use vstd::prelude::*;

verus! {

/// Width of the guest-physical window whose faults are routed to this
/// emulation: any nested page fault inside `[base, base + PLIC_WINDOW)` is a
/// register access to the emulated interrupt controller.
pub const PLIC_WINDOW: usize = 0x0400_0000;

/// Number of claim/complete contexts the emulation latches.
pub const PLIC_CONTEXTS: usize = 2;

/// The context whose claim/complete register serves the supervisor level of
/// the boot core; external-interrupt delivery uses it.
pub const PLIC_SUPERVISOR_CONTEXT: usize = 1;

/// Byte offset of context 0's claim/complete register inside the window;
/// each further context's register sits `PLIC_CONTEXT_STRIDE` higher.
pub const PLIC_CLAIM_OFFSET: usize = 0x0020_0004;

/// Distance between consecutive contexts' claim/complete registers.
pub const PLIC_CONTEXT_STRIDE: usize = 0x1000;

/// Emulated register file of the platform interrupt controller, keyed by
/// byte offset within its guest-physical window, plus the per-context
/// claim/complete latches.
///
/// No lock guards this state: it is mutated only from the trapping virtual
/// CPU's own dispatch path, and the guest's claim/complete discipline keeps
/// at most one core inside it at a time. That single-writer assumption is a
/// precondition of the surrounding system, not something this type enforces.
pub struct PlicState {
    base: usize,
    regs: Vec<(usize, u32)>,
    claim_complete: Vec<u32>,
}

impl PlicState {
    /// Guest-physical base address of the emulated window.
    pub closed spec fn base_spec(&self) -> int {
        self.base as int
    }

    /// The register file as a map from byte offset to last stored value;
    /// an offset never stored reads as zero.
    pub closed spec fn regs_map(&self) -> Map<int, u32> {
        Map::new(
            |off: int| exists|k: int| 0 <= k < self.regs@.len() && self.regs@[k].0 == off,
            |off: int|
                {
                    let k = choose|k: int| 0 <= k < self.regs@.len() && self.regs@[k].0 == off;
                    self.regs@[k].1
                },
        )
    }

    /// The per-context claim/complete latches.
    pub closed spec fn claims_spec(&self) -> Seq<u32> {
        self.claim_complete@
    }

    /// Offsets in the register file are unique, and the latch array has one
    /// slot per context.
    pub closed spec fn wf(&self) -> bool {
        &&& forall|i: int, j: int|
            0 <= i < j < self.regs@.len() ==> (#[trigger] self.regs@[i]).0 != (
            #[trigger] self.regs@[j]).0
        &&& self.claim_complete@.len() == PLIC_CONTEXTS
    }

    /// Whether guest-physical address `a` lies inside the emulated window.
    pub open spec fn in_window(&self, a: int) -> bool {
        self.base_spec() <= a < self.base_spec() + PLIC_WINDOW
    }

    /// A fresh emulation at guest-physical base `base`: every register and
    /// every claim/complete latch reads zero.
    pub fn new(base: usize) -> (r: PlicState)
        ensures
            r.wf(),
            r.base_spec() == base as int,
            r.regs_map() == Map::<int, u32>::empty(),
            r.claims_spec() == seq![0u32, 0u32],
    {
        let mut claim_complete: Vec<u32> = Vec::new();
        claim_complete.push(0);
        claim_complete.push(0);
        let r = PlicState { base, regs: Vec::new(), claim_complete };
        proof {
            assert(r.regs_map() =~= Map::<int, u32>::empty());
            assert(r.claims_spec() =~= seq![0u32, 0u32]);
        }
        r
    }

    /// Guest-physical base of the window, for fault routing.
    pub fn base(&self) -> (r: usize)
        ensures
            r as int == self.base_spec(),
    {
        self.base
    }

    /// Reads the register at guest-physical address `addr`. The dispatcher
    /// validates the address before calling: out-of-window access is a
    /// contract violation, not a runtime case.
    pub fn read_u32(&self, addr: usize) -> (r: u32)
        requires
            self.wf(),
            self.in_window(addr as int),
        ensures
            r == if self.regs_map().dom().contains(addr - self.base_spec()) {
                self.regs_map()[addr - self.base_spec()]
            } else {
                0u32
            },
    {
        let off = addr - self.base;
        let n = self.regs.len();
        for i in 0..n
            invariant
                n == self.regs@.len(),
                self.wf(),
                off as int == addr - self.base_spec(),
                forall|k: int| 0 <= k < i ==> (#[trigger] self.regs@[k]).0 != off,
        {
            if self.regs[i].0 == off {
                proof {
                    assert(self.regs_map().dom().contains(off as int));
                    assert(self.regs_map()[off as int] == self.regs@[i as int].1);
                }
                return self.regs[i].1;
            }
        }
        proof {
            assert(!self.regs_map().dom().contains(off as int));
        }
        0
    }

    /// Stores `value` into the register at guest-physical address `addr`;
    /// the claim/complete latches are untouched. Pre-validated as `read_u32`.
    pub fn write_u32(&mut self, addr: usize, value: u32)
        requires
            old(self).wf(),
            old(self).in_window(addr as int),
        ensures
            final(self).wf(),
            final(self).base_spec() == old(self).base_spec(),
            final(self).claims_spec() == old(self).claims_spec(),
            final(self).regs_map() == old(self).regs_map().insert(
                addr - old(self).base_spec(),
                value,
            ),
            final(self).in_window(addr as int),
    {
        let off = addr - self.base;
        let n = self.regs.len();
        for i in 0..n
            invariant
                n == self.regs@.len(),
                self.wf(),
                *self == *old(self),
                off as int == addr - self.base_spec(),
                self.in_window(addr as int),
                forall|k: int| 0 <= k < i ==> (#[trigger] self.regs@[k]).0 != off,
        {
            if self.regs[i].0 == off {
                self.regs.set(i, (off, value));
                proof {
                    assert forall|o: int|
                        final(self).regs_map().dom().contains(o) == old(self).regs_map().insert(
                            off as int,
                            value,
                        ).dom().contains(o) by {
                        if o != off {
                            assert forall|k: int|
                                0 <= k < old(self).regs@.len() && (#[trigger] old(
                                    self,
                                ).regs@[k]).0 == o implies self.regs@[k].0 == o by {
                                assert(old(self).regs@[i as int].0 == off as int);
                            }
                            assert forall|k: int|
                                0 <= k < self.regs@.len() && (#[trigger] self.regs@[k]).0 == o
                                    implies old(self).regs@[k].0 == o by {
                                assert(self.regs@[i as int].0 == off as int);
                            }
                        } else {
                            assert(self.regs@[i as int].0 == off as int);
                        }
                    }
                    assert forall|o: int| #[trigger]
                        final(self).regs_map().dom().contains(o) implies final(self).regs_map()[o]
                        == old(self).regs_map().insert(off as int, value)[o] by {
                        let k = choose|k: int|
                            0 <= k < self.regs@.len() && self.regs@[k].0 == o;
                        if o == off {
                            assert(k == i as int);
                        } else {
                            assert(old(self).regs@[k].0 == o);
                            let k2 = choose|k2: int|
                                0 <= k2 < old(self).regs@.len() && old(self).regs@[k2].0 == o;
                            assert(k2 == k);
                        }
                    }
                    assert(final(self).regs_map() =~= old(self).regs_map().insert(
                        off as int,
                        value,
                    ));
                }
                return ;
            }
        }
        self.regs.push((off, value));
        proof {
            assert forall|o: int|
                final(self).regs_map().dom().contains(o) == old(self).regs_map().insert(
                    off as int,
                    value,
                ).dom().contains(o) by {
                if o != off {
                    assert forall|k: int|
                        0 <= k < old(self).regs@.len() && old(self).regs@[k].0 == o implies
                        self.regs@[k].0 == o by {}
                    assert forall|k: int|
                        0 <= k < self.regs@.len() && self.regs@[k].0 == o implies
                        0 <= k < old(self).regs@.len() && old(self).regs@[k].0 == o by {
                        assert(self.regs@[self.regs@.len() - 1].0 == off);
                    }
                } else {
                    assert(self.regs@[self.regs@.len() - 1].0 == off);
                }
            }
            assert forall|o: int| #[trigger] final(self).regs_map().dom().contains(o) implies
                final(self).regs_map()[o] == old(self).regs_map().insert(off as int, value)[o] by {
                let k = choose|k: int| 0 <= k < self.regs@.len() && self.regs@[k].0 == o;
                if o == off {
                    assert(k == self.regs@.len() - 1);
                } else {
                    assert(0 <= k < old(self).regs@.len() && old(self).regs@[k].0 == o);
                    let k2 = choose|k2: int|
                        0 <= k2 < old(self).regs@.len() && old(self).regs@[k2].0 == o;
                    assert(k2 == k);
                }
            }
            assert(final(self).regs_map() =~= old(self).regs_map().insert(off as int, value));
        }
    }

    /// Read-to-claim: returns the pending interrupt latched for `context_id`
    /// and clears it, as the hardware claim/complete register behaves.
    pub fn claim_and_complete(&mut self, context_id: usize) -> (r: u32)
        requires
            old(self).wf(),
            context_id < PLIC_CONTEXTS,
        ensures
            final(self).wf(),
            final(self).base_spec() == old(self).base_spec(),
            final(self).regs_map() == old(self).regs_map(),
            r == old(self).claims_spec()[context_id as int],
            final(self).claims_spec() == old(self).claims_spec().update(context_id as int, 0u32),
    {
        let r = self.claim_complete[context_id];
        self.claim_complete.set(context_id, 0);
        r
    }

    /// Guest-physical address of the claim/complete register of
    /// `context_id`: where external-interrupt delivery reads the hardware's
    /// claimed interrupt number. The window bases this platform uses sit far
    /// below the top of the address space, so the sum cannot wrap.
    pub fn claim_complete_addr(&self, context_id: usize) -> (r: usize)
        requires
            context_id < PLIC_CONTEXTS,
            self.base_spec() + PLIC_CLAIM_OFFSET + PLIC_CONTEXT_STRIDE * context_id <= usize::MAX,
        ensures
            r as int == self.base_spec() + PLIC_CLAIM_OFFSET + PLIC_CONTEXT_STRIDE * context_id,
    {
        self.base + PLIC_CLAIM_OFFSET + PLIC_CONTEXT_STRIDE * context_id
    }

    /// Latches `irq` as pending for `context_id`; external-interrupt
    /// delivery records what the hardware claim register handed out.
    pub fn record_claim(&mut self, context_id: usize, irq: u32)
        requires
            old(self).wf(),
            context_id < PLIC_CONTEXTS,
        ensures
            final(self).wf(),
            final(self).base_spec() == old(self).base_spec(),
            final(self).regs_map() == old(self).regs_map(),
            final(self).claims_spec() == old(self).claims_spec().update(context_id as int, irq),
    {
        self.claim_complete.set(context_id, irq);
    }
}

} // verus!
