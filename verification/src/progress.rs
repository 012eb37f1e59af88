//! Progress aggregation: per-chunk byte counters and the emission rule
//! that bounds how often a snapshot is rendered.

use vstd::prelude::*;

verus! {

/// Bytes written so far for one chunk, against its expected total.
pub struct Progress {
    pub current: usize,
    pub total: usize,
}

impl Progress {
    /// A counter starting at `current` of `total` bytes.
    pub fn new(current: usize, total: usize) -> (p: Progress)
        ensures
            p.current == current,
            p.total == total,
    {
        Progress { current, total }
    }

    /// Records `written` more bytes for this chunk.
    pub fn add_prog(&mut self, written: usize)
        requires
            old(self).current + written <= usize::MAX,
        ensures
            final(self).current == old(self).current + written,
            final(self).total == old(self).total,
    {
        self.current = self.current + written;
    }
}

/// Total bytes written across all chunk counters.
pub open spec fn sum_written(s: Seq<Progress>) -> int
    decreases s.len(),
{
    if s.len() == 0 {
        0
    } else {
        sum_written(s.drop_last()) + s.last().current
    }
}

/// A prefix never sums to more than the whole sequence.
pub proof fn lemma_sum_prefix(s: Seq<Progress>, i: int)
    requires
        0 <= i <= s.len(),
    ensures
        sum_written(s.take(i)) <= sum_written(s),
    decreases s.len() - i,
{
    if i == s.len() {
        assert(s.take(i) =~= s);
    } else {
        lemma_sum_prefix(s, i + 1);
        assert(s.take(i + 1).drop_last() =~= s.take(i));
        assert(sum_written(s.take(i + 1)) == sum_written(s.take(i)) + s[i].current);
    }
}

/// Replacing one counter changes the total by exactly the difference of
/// that counter.
pub proof fn lemma_sum_update(s: Seq<Progress>, i: int, p: Progress)
    requires
        0 <= i < s.len(),
    ensures
        sum_written(s.update(i, p)) == sum_written(s) - s[i].current + p.current,
    decreases s.len(),
{
    if i == s.len() - 1 {
        assert(s.update(i, p).drop_last() =~= s.drop_last());
    } else {
        lemma_sum_update(s.drop_last(), i, p);
        assert(s.update(i, p).drop_last() =~= s.drop_last().update(i, p));
        assert(s.update(i, p).last() == s.last());
    }
}

/// One counter per chunk, in index order.
pub struct Status {
    pub progs: Vec<Progress>,
}

impl Status {
    /// Counters for the given per-chunk totals, all starting at zero.
    /// The totals must be in index order.
    pub fn new(total_size_list: Vec<usize>) -> (s: Status)
        ensures
            s.progs@.len() == total_size_list@.len(),
            forall|i: int|
                0 <= i < s.progs@.len()
                    ==> (#[trigger] s.progs@[i]).current == 0
                        && s.progs@[i].total == total_size_list@[i],
    {
        let mut progs: Vec<Progress> = Vec::new();
        let mut i: usize = 0;
        while i < total_size_list.len()
            invariant
                i <= total_size_list@.len(),
                progs@.len() == i,
                forall|j: int|
                    0 <= j < i
                        ==> (#[trigger] progs@[j]).current == 0
                            && progs@[j].total == total_size_list@[j],
            decreases total_size_list@.len() - i,
        {
            progs.push(Progress::new(0, total_size_list[i]));
            i = i + 1;
        }
        Status { progs }
    }

    /// Records `written` more bytes for chunk `idx`.  The aggregate total
    /// grows by exactly `written`, so snapshots are monotonically
    /// non-decreasing whatever order chunks arrive in.
    pub fn add_to(&mut self, idx: usize, written: usize)
        requires
            idx < old(self).progs@.len(),
            old(self).progs@[idx as int].current + written <= usize::MAX,
        ensures
            final(self).progs@.len() == old(self).progs@.len(),
            final(self).progs@[idx as int].current == old(self).progs@[idx as int].current
                + written,
            final(self).progs@[idx as int].total == old(self).progs@[idx as int].total,
            forall|j: int|
                0 <= j < old(self).progs@.len() && j != idx
                    ==> final(self).progs@[j] == old(self).progs@[j],
            sum_written(final(self).progs@) == sum_written(old(self).progs@) + written,
    {
        let p = &self.progs[idx];
        let updated = Progress::new(p.current + written, p.total);
        proof {
            lemma_sum_update(self.progs@, idx as int, updated);
        }
        self.progs.set(idx, updated);
        proof {
            assert(self.progs@ =~= old(self).progs@.update(idx as int, updated));
        }
    }

    /// Total bytes written across all chunks.
    pub fn get_total_written(&self) -> (n: usize)
        requires
            sum_written(self.progs@) <= usize::MAX,
        ensures
            n == sum_written(self.progs@),
    {
        let mut acc: usize = 0;
        let mut i: usize = 0;
        while i < self.progs.len()
            invariant
                i <= self.progs@.len(),
                acc == sum_written(self.progs@.take(i as int)),
                sum_written(self.progs@) <= usize::MAX,
            decreases self.progs@.len() - i,
        {
            proof {
                lemma_sum_prefix(self.progs@, i as int + 1);
                assert(self.progs@.take(i as int + 1).drop_last() =~= self.progs@.take(i as int));
                assert(sum_written(self.progs@.take(i as int + 1))
                    == sum_written(self.progs@.take(i as int)) + self.progs@[i as int].current);
            }
            acc = acc + self.progs[i].current;
            i = i + 1;
        }
        proof {
            assert(self.progs@.take(self.progs@.len() as int) =~= self.progs@);
        }
        acc
    }
}

/// The emission rule: a snapshot is rendered only when the bytes written
/// since the last one exceed one percent of the resource's total size.
pub fn threshold_exceeded(total_written: usize, checkpoint: usize, size: u64) -> (r: bool)
    requires
        checkpoint <= total_written,
    ensures
        r == ((total_written - checkpoint) * 100 > size),
{
    ((total_written - checkpoint) as u128) * 100 > (size as u128)
}

} // verus!
