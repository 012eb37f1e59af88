//! Completion tracking: which chunk indices have been durably placed,
//! and whether the whole transfer is done.

use vstd::prelude::*;
use vstd::string::StringExecFns;
use std::collections::HashSet;

verus! {

broadcast use vstd::std_specs::hash::group_hash_axioms;

/// The set of chunk indices strictly below `n`.
pub open spec fn below_set(n: usize) -> Set<usize> {
    Set::new(|c: usize| c < n)
}

/// `below_set(n)` is finite and holds exactly `n` indices.
pub proof fn lemma_below_set_len(n: usize)
    ensures
        below_set(n).finite(),
        below_set(n).len() == n,
    decreases n,
{
    if n == 0 {
        assert(below_set(0) =~= Set::<usize>::empty());
    } else {
        let m = (n - 1) as usize;
        lemma_below_set_len(m);
        assert(below_set(n) =~= below_set(m).insert(m));
    }
}

/// Records which chunk indices have been fully placed in the destination.
/// Complete exactly when every index in `[0, total_chunks)` is present.
pub struct Status {
    pub total_chunks: usize,
    pub chunks: HashSet<usize>,
}

impl Status {
    /// Only indices belonging to the plan are ever recorded.
    pub open spec fn wf(&self) -> bool {
        &&& self.chunks@.finite()
        &&& forall|c: usize| self.chunks@.contains(c) ==> c < self.total_chunks
    }

    /// The set of indices marked so far.
    pub open spec fn marked(&self) -> Set<usize> {
        self.chunks@
    }

    /// Every index of the plan has been marked at least once.
    pub open spec fn all_marked(&self) -> bool {
        forall|c: usize| c < self.total_chunks ==> self.chunks@.contains(c)
    }

    /// A fresh tracker for a plan of `total_chunks` ranges, nothing marked.
    pub fn new(total_chunks: usize) -> (s: Status)
        ensures
            s.wf(),
            s.total_chunks == total_chunks,
            s.marked() == Set::<usize>::empty(),
    {
        Status { total_chunks, chunks: HashSet::new() }
    }

    /// Marks `chunk` as placed.  Duplicate marks are harmless: marking an
    /// already-present index leaves the recorded set unchanged.
    pub fn push(&mut self, chunk: usize)
        requires
            old(self).wf(),
            chunk < old(self).total_chunks,
        ensures
            final(self).wf(),
            final(self).total_chunks == old(self).total_chunks,
            final(self).marked() == old(self).marked().insert(chunk),
    {
        self.chunks.insert(chunk);
    }

    /// Whether `chunk` has been marked as placed.
    pub fn contains(&self, chunk: usize) -> (r: bool)
        ensures
            r == self.marked().contains(chunk),
    {
        self.chunks.contains(&chunk)
    }

    /// Whether as many indices are recorded as the plan has ranges.
    pub fn check_len(&self) -> (r: bool)
        ensures
            r == (self.marked().len() == self.total_chunks),
    {
        self.chunks.len() == self.total_chunks
    }

    /// Whether the transfer is complete: true exactly when every index in
    /// `[0, total_chunks)` has been marked.  The cardinality shortcut is
    /// backed by an explicit membership check over all indices.
    pub fn check(&self) -> (r: bool)
        requires
            self.wf(),
        ensures
            r == self.all_marked(),
    {
        proof {
            if self.all_marked() && self.marked().len() != self.total_chunks {
                lemma_below_set_len(self.total_chunks);
                assert(self.chunks@ =~= below_set(self.total_chunks));
                assert(false);
            }
        }
        if self.check_len() {
            let mut c: usize = 0;
            while c < self.total_chunks
                invariant
                    c <= self.total_chunks,
                    forall|k: usize| k < c ==> self.chunks@.contains(k),
                decreases self.total_chunks - c,
            {
                if !self.chunks.contains(&c) {
                    return false;
                }
                c = c + 1;
            }
            true
        } else {
            false
        }
    }
}

/// One chunk's mark in the rendered status line: a check for a placed
/// index, a cross otherwise, then the index in superscript digits.
pub open spec fn spec_mark(done: bool, c: usize) -> Seq<char> {
    (if done {
        seq!['✓']
    } else {
        seq!['x']
    }) + spec_superscript(c as int)
}

/// The marks for the indices below `k`, in index order, bar-separated.
pub open spec fn spec_marks(marked: Set<usize>, k: nat) -> Seq<char>
    decreases k,
{
    if k == 0 {
        Seq::empty()
    } else if k == 1 {
        spec_mark(marked.contains(0usize), 0usize)
    } else {
        spec_marks(marked, (k - 1) as nat) + seq!['|'] + spec_mark(
            marked.contains((k - 1) as usize),
            (k - 1) as usize,
        )
    }
}

impl Status {
    /// Renders the completion line: every chunk's mark in index order,
    /// bar-separated and bracketed, placed indices shown as checks.
    pub fn render(&self) -> (s: String)
        ensures
            s@ == seq!['['] + spec_marks(self.marked(), self.total_chunks as nat) + seq![']'],
    {
        let mut s = String::from_str("[");
        proof {
            reveal_strlit("[");
            reveal_strlit("]");
            reveal_strlit("|");
            reveal_strlit("✓");
            reveal_strlit("x");
            assert(s@ =~= seq!['['] + spec_marks(self.marked(), 0));
        }
        let mut c: usize = 0;
        while c < self.total_chunks
            invariant
                c <= self.total_chunks,
                s@ == seq!['['] + spec_marks(self.marked(), c as nat),
            decreases self.total_chunks - c,
        {
            proof {
                reveal_strlit("|");
                reveal_strlit("✓");
                reveal_strlit("x");
            }
            if c > 0 {
                s.append("|");
            }
            if self.contains(c) {
                s.append("✓");
            } else {
                s.append("x");
            }
            let sup = superscript(c);
            s.append(sup.as_str());
            proof {
                assert(s@ =~= seq!['['] + spec_marks(self.marked(), c as nat + 1));
            }
            c = c + 1;
        }
        s.append("]");
        proof {
            reveal_strlit("]");
            assert(s@ =~= seq!['['] + spec_marks(self.marked(), self.total_chunks as nat)
                + seq![']']);
        }
        s
    }
}

/// Completion is idempotent under duplicate marks: recording an index twice
/// leaves the recorded set — and so the completion answer — unchanged.
pub proof fn lemma_mark_idempotent(marked: Set<usize>, chunk: usize)
    ensures
        marked.insert(chunk).insert(chunk) == marked.insert(chunk),
{
    assert(marked.insert(chunk).insert(chunk) =~= marked.insert(chunk));
}

/// The superscript form of a single decimal digit.
pub open spec fn superscript_digit(d: int) -> char {
    if d == 0 {
        '⁰'
    } else if d == 1 {
        '¹'
    } else if d == 2 {
        '²'
    } else if d == 3 {
        '³'
    } else if d == 4 {
        '⁴'
    } else if d == 5 {
        '⁵'
    } else if d == 6 {
        '⁶'
    } else if d == 7 {
        '⁷'
    } else if d == 8 {
        '⁸'
    } else {
        '⁹'
    }
}

/// The decimal digits of `n` as superscript characters, most significant
/// digit first.
pub open spec fn spec_superscript(n: int) -> Seq<char>
    decreases n,
{
    if n < 10 {
        seq![superscript_digit(n)]
    } else {
        spec_superscript(n / 10).push(superscript_digit(n % 10))
    }
}

/// The superscript form of one digit, as a string slice.
fn superscript_digit_str(d: usize) -> (s: &'static str)
    requires
        d < 10,
    ensures
        s@ == seq![superscript_digit(d as int)],
{
    proof {
        reveal_strlit("⁰");
        reveal_strlit("¹");
        reveal_strlit("²");
        reveal_strlit("³");
        reveal_strlit("⁴");
        reveal_strlit("⁵");
        reveal_strlit("⁶");
        reveal_strlit("⁷");
        reveal_strlit("⁸");
        reveal_strlit("⁹");
    }
    match d {
        0 => "⁰",
        1 => "¹",
        2 => "²",
        3 => "³",
        4 => "⁴",
        5 => "⁵",
        6 => "⁶",
        7 => "⁷",
        8 => "⁸",
        _ => "⁹",
    }
}

/// Renders `n` in superscript decimal digits, for compact progress labels.
pub fn superscript(n: usize) -> (s: String)
    ensures
        s@ == spec_superscript(n as int),
{
    if n == 0 {
        let s = String::from_str(superscript_digit_str(0));
        assert(s@ =~= spec_superscript(0));
        s
    } else {
        let mut s = String::new();
        let mut m: usize = n;
        while m > 0
            invariant
                m > 0 ==> spec_superscript(n as int) =~= spec_superscript(m as int) + s@,
                m == 0 ==> s@ =~= spec_superscript(n as int),
            decreases m,
        {
            let d: usize = m % 10;
            let digit = superscript_digit_str(d);
            let ghost old_s = s@;
            let ghost old_m = m as int;
            s = String::from_str(digit).concat(s.as_str());
            m = m / 10;
            proof {
                if m > 0 {
                    assert(spec_superscript(old_m) =~= spec_superscript(m as int) + digit@);
                    assert(spec_superscript(n as int) =~= spec_superscript(m as int) + s@);
                } else {
                    assert(spec_superscript(old_m) =~= digit@);
                    assert(s@ =~= spec_superscript(n as int));
                }
            }
        }
        s
    }
}

} // verus!
