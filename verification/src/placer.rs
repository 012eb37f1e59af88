//! The placer: writes fetched segments into the destination region and
//! marks their indices complete.
//!
//! This is the disjoint direct-write design: each segment is written
//! straight into its own byte range of the pre-sized destination, and the
//! plan's coverage invariant — not a lock — keeps the writes apart.  The
//! payload of every placed segment is remembered in ghost state, so once
//! the tracker reports completion the destination provably holds, at
//! every offset, the byte of the one segment owning that offset,
//! whatever order the segments arrived in.

use vstd::prelude::*;
use crate::memory::Memory;
use crate::plan;
use crate::track;

verus! {

/// Owns the destination region and the completion tracker for one plan.
pub struct Placer {
    /// Total resource size in bytes.
    pub size: u64,
    /// The plan's inclusive byte ranges, in index order.
    pub ranges: Vec<(u64, u64)>,
    /// The destination region, pre-sized to `size`.
    pub dest: Memory,
    /// Which indices have been placed.
    pub tracker: track::Status,
    /// The payload every placed index carried.
    pub placed: Ghost<Map<usize, Seq<u8>>>,
}

impl Placer {
    /// What holds of one placed chunk: its payload is remembered, has the
    /// range's length, and sits in the destination at the range's offsets.
    pub open spec fn chunk_ok(&self, c: usize) -> bool {
        &&& (c as int) < self.ranges@.len()
        &&& self.placed@.dom().contains(c)
        &&& self.placed@[c].len() == self.ranges@[c as int].1 - self.ranges@[c as int].0 + 1
        &&& forall|j: int|
            self.ranges@[c as int].0 <= j <= self.ranges@[c as int].1
                ==> #[trigger] self.dest@[j] == self.placed@[c][j - self.ranges@[c as int].0]
    }

    /// The placer's invariant: the plan tiles `[0, size)` exactly, the
    /// destination has exactly `size` bytes, the tracker covers the
    /// plan's indices, and every marked chunk sits in the destination.
    pub open spec fn wf(&self) -> bool {
        &&& plan::covers_exactly(self.ranges@, self.size)
        &&& self.dest@.len() == self.size
        &&& self.tracker.wf()
        &&& self.tracker.total_chunks == self.ranges@.len()
        &&& forall|c: usize| #[trigger] self.tracker.marked().contains(c) ==> self.chunk_ok(c)
    }

    /// A placer over a zero-filled destination for the given plan,
    /// nothing placed yet.
    pub fn new(size: u64, ranges: Vec<(u64, u64)>) -> (p: Placer)
        requires
            plan::covers_exactly(ranges@, size),
            size <= usize::MAX,
        ensures
            p.wf(),
            p.size == size,
            p.ranges == ranges,
            p.tracker.marked() == Set::<usize>::empty(),
    {
        let n = ranges.len();
        Placer {
            size,
            ranges,
            dest: Memory::new(size as usize),
            tracker: track::Status::new(n),
            placed: Ghost(Map::empty()),
        }
    }

    /// Writes the segment for chunk `index` into its own byte range and
    /// marks the index complete; answers whether the plan is now fully
    /// placed.  No byte outside the chunk's range is touched, so earlier
    /// segments survive whatever order this one arrived in.
    pub fn place(&mut self, index: usize, bytes: &[u8]) -> (done: bool)
        requires
            old(self).wf(),
            index < old(self).ranges@.len(),
            bytes@.len() == old(self).ranges@[index as int].1 - old(self).ranges@[index as int].0
                + 1,
        ensures
            final(self).wf(),
            final(self).size == old(self).size,
            final(self).ranges == old(self).ranges,
            final(self).tracker.marked() == old(self).tracker.marked().insert(index),
            final(self).placed@ == old(self).placed@.insert(index, bytes@),
            done == final(self).tracker.all_marked(),
    {
        proof {
            plan::lemma_range_in_bounds(self.ranges@, self.size, index as int);
        }
        let range = (self.ranges[index].0, self.ranges[index].1);
        self.dest.place(range, bytes);
        self.tracker.push(index);
        proof {
            self.placed@ = self.placed@.insert(index, bytes@);
            assert forall|c: usize| #[trigger] self.tracker.marked().contains(c) implies self
                .chunk_ok(c) by {
                if c != index {
                    assert(old(self).chunk_ok(c));
                    if (c as int) < index as int {
                        plan::lemma_plan_disjoint(self.ranges@, self.size, c as int, index as int);
                    } else {
                        plan::lemma_plan_disjoint(self.ranges@, self.size, index as int, c as int);
                    }
                    plan::lemma_range_in_bounds(self.ranges@, self.size, c as int);
                }
            }
        }
        self.tracker.check()
    }

    /// Assembly correctness: once every index is marked, each byte of the
    /// destination is the byte of the unique segment owning its offset —
    /// the final contents are independent of arrival order.
    pub proof fn lemma_assembled(&self, b: u64)
        requires
            self.wf(),
            self.tracker.all_marked(),
            b < self.size,
        ensures
            exists|i: int|
                0 <= i < self.ranges@.len() && (#[trigger] self.ranges@[i]).0 <= b
                    <= self.ranges@[i].1 && self.dest@[b as int] == self.placed@[i as usize][b
                    - self.ranges@[i].0],
    {
        plan::lemma_unique_owner(self.ranges@, self.size, b);
        let i = choose|i: int|
            0 <= i < self.ranges@.len() && (#[trigger] self.ranges@[i]).0 <= b
                <= self.ranges@[i].1;
        assert(self.tracker.marked().contains(i as usize));
        assert(self.chunk_ok(i as usize));
    }
}

} // verus!
