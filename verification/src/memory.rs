//! A bounds-checked, owned byte region standing for the pre-sized
//! destination of a transfer.
//!
//! Every write is confined to `[offset, offset + len)` by a verified
//! precondition, so a fetcher granted one range of the plan can never
//! touch a byte belonging to another range.

use vstd::prelude::*;

verus! {

/// An owned writable byte region of fixed length.
pub struct Memory {
    pub inner: Vec<u8>,
}

impl View for Memory {
    type V = Seq<u8>;

    open spec fn view(&self) -> Seq<u8> {
        self.inner@
    }
}

impl Memory {
    /// A zero-filled region of `len` bytes.
    pub fn new(len: usize) -> (m: Memory)
        ensures
            m@ == Seq::new(len as nat, |i: int| 0u8),
    {
        let mut inner: Vec<u8> = Vec::new();
        while inner.len() < len
            invariant
                inner@.len() <= len,
                forall|j: int| 0 <= j < inner@.len() ==> inner@[j] == 0u8,
            decreases len - inner@.len(),
        {
            inner.push(0u8);
        }
        proof {
            assert(inner@ =~= Seq::new(len as nat, |i: int| 0u8));
        }
        Memory { inner }
    }

    /// How many bytes the region holds.
    pub fn len(&self) -> (n: usize)
        ensures
            n == self@.len(),
    {
        self.inner.len()
    }

    /// Writes `src[..len]` at `offset`.  The write stays inside
    /// `[offset, offset + len)`; every byte outside it is untouched.
    pub fn write_at(&mut self, offset: usize, src: &[u8], len: usize)
        requires
            len <= src@.len(),
            offset + len <= old(self)@.len(),
        ensures
            final(self)@.len() == old(self)@.len(),
            forall|j: int| 0 <= j < len ==> final(self)@[offset + j] == src@[j],
            forall|j: int|
                0 <= j < old(self)@.len() && !(offset <= j < offset + len)
                    ==> final(self)@[j] == old(self)@[j],
    {
        // The call's contract bounds the region's length by usize::MAX,
        // which the loop needs to keep `offset + k` from overflowing.
        let total: usize = self.inner.len();
        let mut k: usize = 0;
        while k < len
            invariant
                len <= src@.len(),
                offset + len <= usize::MAX,
                offset + len <= self@.len(),
                self@.len() == old(self)@.len(),
                k <= len,
                forall|j: int| 0 <= j < k ==> self@[offset + j] == src@[j],
                forall|j: int|
                    0 <= j < self@.len() && !(offset <= j < offset + k)
                        ==> self@[j] == old(self)@[j],
            decreases len - k,
        {
            let b: u8 = src[k];
            self.inner.set(offset + k, b);
            k = k + 1;
        }
    }

    /// Fills the first `len` bytes of the region from the start of `src`.
    pub fn copy_fill(&mut self, src: &[u8], len: usize)
        requires
            len <= old(self)@.len(),
            len <= src@.len(),
        ensures
            final(self)@.len() == old(self)@.len(),
            forall|j: int| 0 <= j < len ==> final(self)@[j] == src@[j],
            forall|j: int| len <= j < old(self)@.len() ==> final(self)@[j] == old(self)@[j],
    {
        self.write_at(0, src, len);
    }

    /// Fills the whole region from `src`, which must be at least as long.
    pub fn copy_fill_from(&mut self, src: &[u8])
        requires
            src@.len() >= old(self)@.len(),
        ensures
            final(self)@ == src@.subrange(0, old(self)@.len() as int),
    {
        let n: usize = self.inner.len();
        self.write_at(0, src, n);
        proof {
            assert(self@ =~= src@.subrange(0, old(self)@.len() as int));
        }
    }

    /// Places one fetched segment at its range's offset: the disjoint
    /// direct-write design, with the bounds check established statically
    /// from the plan's coverage invariant.
    pub fn place(&mut self, range: (u64, u64), bytes: &[u8])
        requires
            range.0 <= range.1,
            range.1 < old(self)@.len(),
            bytes@.len() == range.1 - range.0 + 1,
        ensures
            final(self)@.len() == old(self)@.len(),
            forall|j: int| range.0 <= j <= range.1 ==> final(self)@[j] == bytes@[j - range.0],
            forall|j: int|
                0 <= j < old(self)@.len() && !(range.0 <= j <= range.1)
                    ==> final(self)@[j] == old(self)@[j],
    {
        let n: usize = self.inner.len();
        let off: usize = range.0 as usize;
        let len: usize = (range.1 - range.0 + 1) as usize;
        self.write_at(off, bytes, len);
        proof {
            assert forall|j: int| range.0 <= j <= range.1 implies self@[j] == bytes@[j
                - range.0] by {
                assert(self@[off + (j - range.0)] == bytes@[j - range.0]);
            }
            assert forall|j: int|
                0 <= j < old(self)@.len() && !(range.0 <= j <= range.1) implies self@[j] == old(
                self,
            )@[j] by {
                assert(!(off <= j < off + len));
            }
        }
    }
}

} // verus!
