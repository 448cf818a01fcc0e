use vstd::prelude::*;

verus! {

/// Permission bits carried by one guest memory mapping.
#[derive(Clone, Copy, Debug, PartialEq, Eq, Structural)]
pub struct MemFlags {
    pub read: bool,
    pub write: bool,
    pub execute: bool,
    pub user: bool,
}

/// Size of one guest page; every installed region is page-aligned.
pub const PAGE_SIZE: usize = 0x1000;

/// One immutable guest-physical to host-physical mapping with permissions.
#[derive(Clone, Copy, Debug, PartialEq, Eq, Structural)]
pub struct GuestMemoryRegion {
    /// Guest-physical base address.
    pub gpa: usize,
    /// Host-physical base address backing the window.
    pub hpa: usize,
    /// Length of the window in bytes.
    pub size: usize,
    /// Permissions the translation is installed with.
    pub flags: MemFlags,
}

/// A region the translation structure accepts: non-empty, page-aligned on
/// both sides and in length, and not wrapping the address space.
pub open spec fn region_wf(r: GuestMemoryRegion) -> bool {
    &&& r.size > 0
    &&& r.gpa as int % (PAGE_SIZE as int) == 0
    &&& r.hpa as int % (PAGE_SIZE as int) == 0
    &&& r.size as int % (PAGE_SIZE as int) == 0
    &&& r.gpa + r.size <= usize::MAX
    &&& r.hpa + r.size <= usize::MAX
}

/// Whether guest-physical address `a` lies inside region `r`.
pub open spec fn region_covers(r: GuestMemoryRegion, a: int) -> bool {
    r.gpa <= a < r.gpa + r.size
}

/// Two regions whose guest-physical windows do not overlap.
pub open spec fn regions_disjoint(a: GuestMemoryRegion, b: GuestMemoryRegion) -> bool {
    a.gpa + a.size <= b.gpa || b.gpa + b.size <= a.gpa
}

/// Pairwise non-overlap of a whole region list.
pub open spec fn region_list_disjoint(rs: Seq<GuestMemoryRegion>) -> bool {
    forall|i: int, j: int|
        0 <= i < rs.len() && 0 <= j < rs.len() && i != j ==> regions_disjoint(rs[i], rs[j])
}

/// Every region of the list is acceptable to the translation structure.
pub open spec fn region_list_wf(rs: Seq<GuestMemoryRegion>) -> bool {
    forall|i: int| 0 <= i < rs.len() ==> region_wf(#[trigger] rs[i])
}

/// The translation contents that installing `rs` produces: what one
/// guest-physical address translates to, or `None` where nothing maps it.
pub open spec fn translate_at(rs: Seq<GuestMemoryRegion>, a: int) -> Option<(int, MemFlags)> {
    if exists|i: int| 0 <= i < rs.len() && region_covers(#[trigger] rs[i], a) {
        let i = choose|i: int| 0 <= i < rs.len() && region_covers(#[trigger] rs[i], a);
        Some((rs[i].hpa + (a - rs[i].gpa), rs[i].flags))
    } else {
        None
    }
}

/// In a pairwise-disjoint list, at most one region covers any address.
proof fn lemma_covering_index_unique(rs: Seq<GuestMemoryRegion>, a: int, i: int, j: int)
    requires
        region_list_disjoint(rs),
        0 <= i < rs.len(),
        0 <= j < rs.len(),
        region_covers(rs[i], a),
        region_covers(rs[j], a),
    ensures
        i == j,
{
    if i != j {
        assert(regions_disjoint(rs[i], rs[j]));
    }
}

proof fn lemma_translate_at_agrees(rs1: Seq<GuestMemoryRegion>, rs2: Seq<GuestMemoryRegion>, a: int)
    requires
        rs1.to_multiset() == rs2.to_multiset(),
        region_list_disjoint(rs1),
        region_list_disjoint(rs2),
    ensures
        translate_at(rs1, a) == translate_at(rs2, a),
{
    broadcast use vstd::seq_lib::to_multiset_contains;

    if exists|i: int| 0 <= i < rs1.len() && region_covers(#[trigger] rs1[i], a) {
        let i1 = choose|i: int| 0 <= i < rs1.len() && region_covers(#[trigger] rs1[i], a);
        assert(rs1.contains(rs1[i1]));
        assert(rs1.to_multiset().count(rs1[i1]) > 0);
        assert(rs2.to_multiset().count(rs1[i1]) > 0);
        assert(rs2.contains(rs1[i1]));
        let j = choose|j: int| 0 <= j < rs2.len() && rs2[j] == rs1[i1];
        assert(region_covers(rs2[j], a));
        let i2 = choose|i: int| 0 <= i < rs2.len() && region_covers(#[trigger] rs2[i], a);
        lemma_covering_index_unique(rs2, a, i2, j);
    } else if exists|i: int| 0 <= i < rs2.len() && region_covers(#[trigger] rs2[i], a) {
        let i2 = choose|i: int| 0 <= i < rs2.len() && region_covers(#[trigger] rs2[i], a);
        assert(rs2.contains(rs2[i2]));
        assert(rs2.to_multiset().count(rs2[i2]) > 0);
        assert(rs1.to_multiset().count(rs2[i2]) > 0);
        assert(rs1.contains(rs2[i2]));
        let j = choose|j: int| 0 <= j < rs1.len() && rs1[j] == rs2[i2];
        assert(region_covers(rs1[j], a));
    }
}

/// Order independence of installation: two region lists that hold the same
/// regions (in any order), each with non-overlapping guest-physical ranges,
/// produce identical translation contents.
pub proof fn lemma_translation_order_independent(
    rs1: Seq<GuestMemoryRegion>,
    rs2: Seq<GuestMemoryRegion>,
)
    requires
        rs1.to_multiset() == rs2.to_multiset(),
        region_list_disjoint(rs1),
        region_list_disjoint(rs2),
    ensures
        forall|a: int| translate_at(rs1, a) == translate_at(rs2, a),
{
    assert forall|a: int| translate_at(rs1, a) == translate_at(rs2, a) by {
        lemma_translate_at_agrees(rs1, rs2, a);
    }
}

} // verus!
