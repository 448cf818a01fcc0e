use vstd::prelude::*;

verus! {

/// The multi-core bring-up barrier: every participating physical core
/// arrives once after finishing its local initialization, and no core may
/// enter its run loop before every core has arrived. The surrounding system
/// realizes the shared counter with one atomic cell; this type is the
/// counter's logic — what one arrival does and when the barrier opens. There
/// is no timeout: a core that never arrives stalls the machine by design,
/// a fatal configuration error.
pub struct SyncBarrier {
    arrived: usize,
    participants: usize,
}

impl SyncBarrier {
    /// How many cores have arrived so far.
    pub closed spec fn arrived_spec(&self) -> int {
        self.arrived as int
    }

    /// How many cores must arrive before the barrier opens.
    pub closed spec fn participants_spec(&self) -> int {
        self.participants as int
    }

    /// No more cores ever arrive than participate.
    pub open spec fn wf(&self) -> bool {
        self.arrived_spec() <= self.participants_spec()
    }

    /// A barrier for `participants` cores, none arrived yet.
    pub fn new(participants: usize) -> (r: SyncBarrier)
        ensures
            r.wf(),
            r.arrived_spec() == 0,
            r.participants_spec() == participants as int,
    {
        SyncBarrier { arrived: 0, participants }
    }

    /// One core arrives: the count grows by exactly one. Each core arrives
    /// once, so no more arrivals than participants ever happen.
    pub fn arrive(&mut self)
        requires
            old(self).wf(),
            old(self).arrived_spec() < old(self).participants_spec(),
        ensures
            final(self).wf(),
            final(self).arrived_spec() == old(self).arrived_spec() + 1,
            final(self).participants_spec() == old(self).participants_spec(),
    {
        self.arrived = self.arrived + 1;
    }

    /// Whether every participating core has arrived: only then may any core
    /// enter its run loop.
    pub fn released(&self) -> (r: bool)
        ensures
            r == (self.arrived_spec() == self.participants_spec()),
    {
        self.arrived == self.participants
    }
}

} // verus!
