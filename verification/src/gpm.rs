use vstd::prelude::*;

use crate::err::HvError;
use crate::region::{region_list_disjoint, region_list_wf, region_wf, regions_disjoint,
    GuestMemoryRegion};

verus! {

/// What installing one more region into a set that already holds `rs` yields:
/// the grown list, or the error the translation structure reports.
pub open spec fn add_region_spec(
    rs: Seq<GuestMemoryRegion>,
    r: GuestMemoryRegion,
) -> Result<Seq<GuestMemoryRegion>, HvError> {
    if !region_wf(r) {
        Err(HvError::InvalidInput)
    } else if exists|i: int| 0 <= i < rs.len() && !regions_disjoint(#[trigger] rs[i], r) {
        Err(HvError::AlreadyExists)
    } else {
        Ok(rs.push(r))
    }
}

/// Folds `add_region_spec` over `todo`, stopping at the first rejection.
pub open spec fn add_regions_spec(
    rs: Seq<GuestMemoryRegion>,
    todo: Seq<GuestMemoryRegion>,
) -> Result<Seq<GuestMemoryRegion>, HvError>
    decreases todo.len(),
{
    if todo.len() == 0 {
        Ok(rs)
    } else {
        match add_region_spec(rs, todo[0]) {
            Ok(grown) => add_regions_spec(grown, todo.drop_first()),
            Err(e) => Err(e),
        }
    }
}

/// Owns the nested-translation root and the regions installed into it.
///
/// The root handle is allocated by the surrounding system's physical
/// allocator and handed in at construction; the set is mutated only while
/// the virtual machine is being built, append-only.
pub struct GuestPhysMemorySet {
    regions: Vec<GuestMemoryRegion>,
    root: usize,
}

impl GuestPhysMemorySet {
    /// The regions installed so far, in installation order.
    pub closed spec fn regions_spec(&self) -> Seq<GuestMemoryRegion> {
        self.regions@
    }

    /// The nested-translation root handle this set owns.
    pub closed spec fn root_spec(&self) -> int {
        self.root as int
    }

    /// The set never holds a rejected or overlapping region.
    pub open spec fn wf(&self) -> bool {
        &&& region_list_wf(self.regions_spec())
        &&& region_list_disjoint(self.regions_spec())
    }

    /// An empty set over a freshly allocated nested-translation root.
    pub fn new(root: usize) -> (r: GuestPhysMemorySet)
        ensures
            r.wf(),
            r.regions_spec() == Seq::<GuestMemoryRegion>::empty(),
            r.root_spec() == root as int,
    {
        GuestPhysMemorySet { regions: Vec::new(), root }
    }

    /// The root handle, for the virtual machine to own once setup is done.
    pub fn nest_page_table_root(&self) -> (r: usize)
        ensures
            r as int == self.root_spec(),
    {
        self.root
    }

    /// The number of regions installed so far.
    pub fn region_count(&self) -> (r: usize)
        ensures
            r == self.regions_spec().len(),
    {
        self.regions.len()
    }

    /// A copy of the region at `i`, in installation order.
    pub fn region_at(&self, i: usize) -> (r: GuestMemoryRegion)
        requires
            i < self.regions_spec().len(),
        ensures
            r == self.regions_spec()[i as int],
    {
        self.regions[i]
    }

    /// Installs one region: records it and extends the translation contents.
    /// Rejects a malformed region, and a region that overlaps one already
    /// installed; a rejection leaves the set unchanged — construction of the
    /// virtual machine treats it as fatal, there is no partial mode.
    pub fn map_region(&mut self, r: GuestMemoryRegion) -> (res: Result<(), HvError>)
        requires
            old(self).wf(),
        ensures
            final(self).wf(),
            final(self).root_spec() == old(self).root_spec(),
            match res {
                Ok(()) => {
                    &&& add_region_spec(old(self).regions_spec(), r)
                        == Ok::<_, HvError>(final(self).regions_spec())
                    &&& final(self).regions_spec() == old(self).regions_spec().push(r)
                },
                Err(e) => {
                    &&& add_region_spec(old(self).regions_spec(), r) == Err::<Seq<GuestMemoryRegion>, _>(e)
                    &&& *final(self) == *old(self)
                },
            },
    {
        if r.size == 0
            || r.gpa % crate::region::PAGE_SIZE != 0
            || r.hpa % crate::region::PAGE_SIZE != 0
            || r.size % crate::region::PAGE_SIZE != 0
            || r.gpa > usize::MAX - r.size
            || r.hpa > usize::MAX - r.size
        {
            return Err(HvError::InvalidInput);
        }
        let n = self.regions.len();
        for i in 0..n
            invariant
                n == self.regions_spec().len(),
                region_wf(r),
                forall|k: int| 0 <= k < i ==> regions_disjoint(#[trigger] self.regions_spec()[k], r),
                self.wf(),
        {
            let held = self.regions[i];
            if !(held.gpa + held.size <= r.gpa || r.gpa + r.size <= held.gpa) {
                return Err(HvError::AlreadyExists);
            }
        }
        self.regions.push(r);
        Ok(())
    }

    /// Installs a whole region list in order, stopping at the first
    /// rejection; used by guest memory setup, where any rejection is fatal.
    pub fn map_regions(&mut self, rs: &Vec<GuestMemoryRegion>) -> (res: Result<(), HvError>)
        requires
            old(self).wf(),
        ensures
            final(self).wf(),
            final(self).root_spec() == old(self).root_spec(),
            match res {
                Ok(()) => add_regions_spec(old(self).regions_spec(), rs@)
                    == Ok::<_, HvError>(final(self).regions_spec()),
                Err(e) => add_regions_spec(old(self).regions_spec(), rs@)
                    == Err::<Seq<GuestMemoryRegion>, _>(e),
            },
    {
        let n = rs.len();
        proof {
            assert(rs@.skip(0) =~= rs@);
        }
        for i in 0..n
            invariant
                n == rs@.len(),
                self.wf(),
                self.root_spec() == old(self).root_spec(),
                add_regions_spec(old(self).regions_spec(), rs@)
                    == add_regions_spec(self.regions_spec(), rs@.skip(i as int)),
        {
            let res = self.map_region(rs[i]);
            proof {
                assert(rs@.skip(i as int)[0] == rs@[i as int]);
                assert(rs@.skip(i as int).drop_first() == rs@.skip(i as int + 1));
            }
            match res {
                Ok(()) => {}
                Err(e) => {
                    return Err(e);
                }
            }
        }
        proof {
            assert(rs@.skip(n as int).len() == 0);
        }
        Ok(())
    }
}

} // verus!
