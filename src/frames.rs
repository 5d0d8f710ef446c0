//! The early physical frame allocator: the memory regions the loader reports
//! as available, and those the kernel has reserved, kept in fixed-capacity
//! vectors until a real allocator takes over.

use vstd::prelude::*;
use arrayvec::ArrayVec;
use crate::addresses::PhysicalAddress;
use crate::multiboot::{Kind, MemoryMap, Region, kind_of};

verus! {

/// How many regions each list can hold.
pub const REGION_CAPACITY: usize = 32;

#[verifier::external_type_specification]
#[verifier::external_body]
#[verifier::reject_recursive_types(T)]
pub struct ExArrayVec<T, const CAP: usize>(ArrayVec<T, CAP>);

/// The regions, as (base, length) pairs, that a region list holds, in order.
pub uninterp spec fn held_regions(v: ArrayVec<(u64, u64), 32>) -> Seq<(u64, u64)>;

/// Relies on `ArrayVec::new`: the vector starts empty.
#[verifier::external_body]
fn empty_region_list() -> (r: ArrayVec<(u64, u64), 32>)
    ensures
        held_regions(r) == Seq::<(u64, u64)>::empty(),
{
    ArrayVec::new()
}

/// Relies on `ArrayVec::push`: the item goes at the end; push panics on a full
/// vector, which the precondition rules out.
#[verifier::external_body]
fn push_region(v: &mut ArrayVec<(u64, u64), 32>, item: (u64, u64))
    requires
        held_regions(*old(v)).len() < REGION_CAPACITY,
    ensures
        held_regions(*final(v)) == held_regions(*old(v)).push(item),
{
    v.push(item)
}

/// Relies on `ArrayVec::len`: the number of items held.
#[verifier::external_body]
fn region_list_len(v: &ArrayVec<(u64, u64), 32>) -> (r: usize)
    ensures
        r == held_regions(*v).len(),
{
    v.len()
}

/// Relies on indexing an `ArrayVec` (through its slice): item `i`.
#[verifier::external_body]
fn region_list_at(v: &ArrayVec<(u64, u64), 32>, i: usize) -> (r: (u64, u64))
    requires
        i < held_regions(*v).len(),
    ensures
        r == held_regions(*v)[i as int],
{
    v[i]
}

/// The (base, length) pairs of the available regions of `regions`, in order.
pub open spec fn available_pairs(regions: Seq<Region>) -> Seq<(u64, u64)>
    decreases regions.len(),
{
    if regions.len() == 0 {
        Seq::empty()
    } else {
        let rest = available_pairs(regions.drop_last());
        if kind_of(regions.last().kind) == Kind::Available {
            rest.push((regions.last().base, regions.last().length))
        } else {
            rest
        }
    }
}

/// Allocation failed: the early allocator hands out no frames.
#[derive(Clone, Copy, Debug, PartialEq, Eq, Structural)]
pub struct AllocationError;

/// Up to 32 available and 32 reserved regions of physical memory.
pub struct EarlyPhysicalFrameAllocator {
    available: ArrayVec<(u64, u64), 32>,
    reserved: ArrayVec<(u64, u64), 32>,
}

impl EarlyPhysicalFrameAllocator {
    /// The available regions, as (base, length) pairs.
    pub closed spec fn available_spec(&self) -> Seq<(u64, u64)> {
        held_regions(self.available)
    }

    /// The reserved regions, as (base, length) pairs.
    pub closed spec fn reserved_spec(&self) -> Seq<(u64, u64)> {
        held_regions(self.reserved)
    }

    /// An allocator with no regions.
    pub fn new() -> (r: EarlyPhysicalFrameAllocator)
        ensures
            r.available_spec() == Seq::<(u64, u64)>::empty(),
            r.reserved_spec() == Seq::<(u64, u64)>::empty(),
    {
        EarlyPhysicalFrameAllocator { available: empty_region_list(), reserved: empty_region_list() }
    }

    /// An allocator holding the available regions of `map`, which has at most
    /// 32 of them.
    pub fn new_from(map: &MemoryMap) -> (r: EarlyPhysicalFrameAllocator)
        requires
            available_pairs(map.regions_spec()).len() <= REGION_CAPACITY,
        ensures
            r.available_spec() == available_pairs(map.regions_spec()),
            r.reserved_spec() == Seq::<(u64, u64)>::empty(),
    {
        let mut allocator = EarlyPhysicalFrameAllocator::new();
        allocator.add_from(map);
        assert(allocator.available_spec() =~= available_pairs(map.regions_spec()));
        allocator
    }

    /// Adds an available region; the list must have room.
    pub fn add(&mut self, base: PhysicalAddress, length: u64)
        requires
            old(self).available_spec().len() < REGION_CAPACITY,
        ensures
            final(self).available_spec() == old(self).available_spec().push((base@, length)),
            final(self).reserved_spec() == old(self).reserved_spec(),
    {
        push_region(&mut self.available, (base.as_u64(), length));
    }

    /// Adds every available region of `map`, in order; the list must have
    /// room for them.
    pub fn add_from(&mut self, map: &MemoryMap)
        requires
            old(self).available_spec().len() + available_pairs(map.regions_spec()).len()
                <= REGION_CAPACITY,
        ensures
            final(self).available_spec() == old(self).available_spec() + available_pairs(
                map.regions_spec(),
            ),
            final(self).reserved_spec() == old(self).reserved_spec(),
    {
        let regions = map.regions();
        let mut i: usize = 0;
        while i < regions.len()
            invariant
                regions@ == map.regions_spec(),
                i <= regions@.len(),
                old(self).available_spec().len() + available_pairs(regions@).len() <= REGION_CAPACITY,
                self.available_spec() == old(self).available_spec() + available_pairs(
                    regions@.take(i as int),
                ),
                self.reserved_spec() == old(self).reserved_spec(),
            decreases regions@.len() - i,
        {
            let region = regions[i];
            proof {
                assert(regions@.take(i + 1).drop_last() =~= regions@.take(i as int));
                lemma_available_pairs_prefix(regions@, i + 1);
            }
            if region.kind() == Kind::Available {
                let item = (region.starts_at(), region.length());
                push_region(&mut self.available, item);
            }
            proof {
                assert(self.available_spec() =~= old(self).available_spec() + available_pairs(
                    regions@.take(i + 1),
                ));
            }
            i = i + 1;
        }
        assert(regions@.take(regions@.len() as int) =~= regions@);
    }

    /// Reserves a region; the list must have room.
    pub fn reserve(&mut self, base: PhysicalAddress, length: u64)
        requires
            old(self).reserved_spec().len() < REGION_CAPACITY,
        ensures
            final(self).reserved_spec() == old(self).reserved_spec().push((base@, length)),
            final(self).available_spec() == old(self).available_spec(),
    {
        push_region(&mut self.reserved, (base.as_u64(), length));
    }

    /// The number of available regions.
    pub fn available_count(&self) -> (r: usize)
        ensures
            r == self.available_spec().len(),
    {
        region_list_len(&self.available)
    }

    /// Available region `i`, as (base, length).
    pub fn available_at(&self, i: usize) -> (r: (u64, u64))
        requires
            i < self.available_spec().len(),
        ensures
            r == self.available_spec()[i as int],
    {
        region_list_at(&self.available, i)
    }

    /// The number of reserved regions.
    pub fn reserved_count(&self) -> (r: usize)
        ensures
            r == self.reserved_spec().len(),
    {
        region_list_len(&self.reserved)
    }

    /// Frames are not handed out at this stage: every request fails.
    pub fn allocate(size: usize, alignment: usize) -> (r: Result<PhysicalAddress, AllocationError>)
        ensures
            r == Err::<PhysicalAddress, AllocationError>(AllocationError),
    {
        Err(AllocationError)
    }
}

/// A prefix of a region list has no more available regions than the whole list.
proof fn lemma_available_pairs_prefix(regions: Seq<Region>, n: int)
    requires
        0 < n <= regions.len(),
    ensures
        available_pairs(regions.take(n)).len() <= available_pairs(regions).len(),
    decreases regions.len(),
{
    if n < regions.len() {
        assert(regions.drop_last().take(n) =~= regions.take(n));
        lemma_available_pairs_prefix(regions.drop_last(), n);
    } else {
        assert(regions.take(n) =~= regions);
    }
}

} // verus!
