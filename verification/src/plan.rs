//! Range planner: splits `[0, size)` into disjoint, contiguous byte ranges.
//!
//! Each range is an inclusive pair `(start, end)`.  The requested chunk
//! count is clamped so that at least one chunk is used and no chunk is
//! empty; every chunk spans `base = size / chunks` bytes except the last,
//! which also absorbs the remainder of the integer division.

use vstd::prelude::*;
use vstd::arithmetic::div_mod::lemma_fundamental_div_mod;
use vstd::arithmetic::div_mod::lemma_mod_division_less_than_divisor;
use vstd::arithmetic::mul::lemma_mul_inequality;
use vstd::arithmetic::mul::lemma_mul_nonnegative;

verus! {

/// The requested chunk count clamped to `max(1, min(requested, size))`,
/// so a positive resource always gets between 1 and `size` chunks.
pub open spec fn clamped_chunks(size: u64, requested: u32) -> u64
    recommends
        size > 0,
{
    if requested == 0 {
        1u64
    } else if requested as u64 <= size {
        requested as u64
    } else {
        size
    }
}

/// The exact ranges the planner produces for a resource of `size` bytes:
/// empty when `size == 0`; otherwise `clamped_chunks` ranges of `base`
/// bytes each, in index order, the last one ending at `size - 1`.
pub open spec fn spec_partition(size: u64, requested: u32) -> Seq<(u64, u64)> {
    if size == 0 {
        Seq::empty()
    } else {
        let chunks = clamped_chunks(size, requested) as int;
        let base = size as int / chunks;
        Seq::new(
            chunks as nat,
            |i: int|
                (
                    ((i * base) as u64),
                    if i == chunks - 1 {
                        ((size - 1) as u64)
                    } else {
                        ((i * base + base - 1) as u64)
                    },
                ),
        )
    }
}

/// A sequence of inclusive ranges that tiles `[0, size)` exactly: nonempty
/// ranges in index order, each starting right after its predecessor ends,
/// the first at offset 0 and the last ending at `size - 1`.
pub open spec fn covers_exactly(s: Seq<(u64, u64)>, size: u64) -> bool {
    &&& (s.len() == 0 <==> size == 0)
    &&& forall|i: int| 0 <= i < s.len() ==> (#[trigger] s[i]).0 <= s[i].1
    &&& (s.len() > 0 ==> s[0].0 == 0 && s[s.len() - 1].1 == size - 1)
    &&& forall|i: int| 0 <= i < s.len() - 1 ==> (#[trigger] s[i]).1 + 1 == s[i + 1].0
}

/// Arithmetic facts about the clamped chunk count and the base chunk size
/// that the planner proofs lean on.
proof fn lemma_chunk_arith(size: u64, requested: u32)
    requires
        size > 0,
    ensures
        ({
            let chunks = clamped_chunks(size, requested) as int;
            let base = size as int / chunks;
            &&& 1 <= chunks <= size
            &&& 1 <= base
            &&& chunks * base <= size
        }),
{
    let chunks = clamped_chunks(size, requested) as int;
    let base = size as int / chunks;
    lemma_fundamental_div_mod(size as int, chunks);
    lemma_mod_division_less_than_divisor(size as int, chunks);
    assert(size as int == chunks * base + size as int % chunks);
    vstd::arithmetic::div_mod::lemma_div_pos_is_pos(size as int, chunks);
    if base < 1 {
        assert(base == 0);
        assert(chunks * base == 0) by (nonlinear_arith)
            requires
                base == 0,
        ;
        assert(size as int == size as int % chunks);
        assert(false);
    }
}

/// Splits `[0, size)` into `max(1, min(requested_chunks, size))` inclusive
/// byte ranges (none when `size == 0`), deterministically: the result is a
/// function of the two arguments alone.
pub fn partition(size: u64, requested_chunks: u32) -> (r: Vec<(u64, u64)>)
    ensures
        r@ == spec_partition(size, requested_chunks),
{
    let ghost gplan = spec_partition(size, requested_chunks);
    let mut r: Vec<(u64, u64)> = Vec::new();
    if size == 0 {
        assert(r@ =~= gplan);
        return r;
    }
    let chunks: u64 = if requested_chunks == 0 {
        1
    } else if requested_chunks as u64 <= size {
        requested_chunks as u64
    } else {
        size
    };
    let base: u64 = size / chunks;
    proof {
        lemma_chunk_arith(size, requested_chunks);
    }
    let mut i: u64 = 0;
    while i < chunks - 1
        invariant
            size > 0,
            chunks == clamped_chunks(size, requested_chunks),
            base == size as int / chunks as int,
            i <= chunks - 1,
            r@.len() == i,
            gplan == spec_partition(size, requested_chunks),
            forall|j: int| 0 <= j < i ==> r@[j] == gplan[j],
        decreases chunks - 1 - i,
    {
        proof {
            lemma_chunk_arith(size, requested_chunks);
            lemma_mul_inequality(i as int + 1, chunks as int, base as int);
            assert((i as int + 1) * base as int == i as int * base as int + base as int)
                by (nonlinear_arith);
        }
        let start: u64 = i * base;
        let end: u64 = start + base - 1;
        r.push((start, end));
        i = i + 1;
    }
    proof {
        lemma_chunk_arith(size, requested_chunks);
        lemma_mul_inequality(chunks as int - 1, chunks as int, base as int);
    }
    let start: u64 = (chunks - 1) * base;
    r.push((start, size - 1));
    proof {
        assert(r@ =~= gplan);
    }
    r
}

/// Partition coverage: the planner's ranges tile `[0, size)` exactly, and
/// there are `max(1, min(requested, size))` of them whenever `size > 0`.
pub proof fn lemma_partition_coverage(size: u64, requested: u32)
    ensures
        covers_exactly(spec_partition(size, requested), size),
        size > 0 ==> spec_partition(size, requested).len() == clamped_chunks(size, requested),
        size == 0 ==> spec_partition(size, requested).len() == 0,
{
    if size > 0 {
        let s = spec_partition(size, requested);
        let chunks = clamped_chunks(size, requested) as int;
        let base = size as int / chunks;
        lemma_chunk_arith(size, requested);
        assert forall|i: int| 0 <= i < s.len() implies (#[trigger] s[i]).0 <= s[i].1 by {
            lemma_mul_inequality(i + 1, chunks, base);
            assert((i + 1) * base == i * base + base) by (nonlinear_arith);
            lemma_mul_nonnegative(i, base);
        }
        assert forall|i: int| 0 <= i < s.len() - 1 implies (#[trigger] s[i]).1 + 1 == s[i + 1].0 by {
            lemma_mul_inequality(i + 2, chunks, base);
            assert((i + 1) * base == i * base + base) by (nonlinear_arith);
            assert((i + 2) * base == i * base + 2 * base) by (nonlinear_arith);
            lemma_mul_nonnegative(i, base);
        }
        assert(s[0].0 == 0);
        assert(s[s.len() - 1].1 == size - 1);
    }
}

/// Disjoint-write safety: in any plan that tiles `[0, size)` exactly, two
/// distinct ranges never overlap — the earlier one ends strictly before the
/// later one starts.  Fetchers granted such ranges can never write to the
/// same byte.
pub proof fn lemma_plan_disjoint(s: Seq<(u64, u64)>, size: u64, i: int, j: int)
    requires
        covers_exactly(s, size),
        0 <= i < j < s.len(),
    ensures
        s[i].1 < s[j].0,
    decreases j - i,
{
    if j > i + 1 {
        lemma_plan_disjoint(s, size, i, j - 1);
    }
}

/// Disjoint-write safety for the planner itself: no two of its ranges
/// overlap, for any `size` and any requested chunk count.
pub proof fn lemma_partition_disjoint(size: u64, requested: u32)
    ensures
        forall|i: int, j: int|
            0 <= i < j < spec_partition(size, requested).len()
                ==> (#[trigger] spec_partition(size, requested)[i]).1
                    < (#[trigger] spec_partition(size, requested)[j]).0,
{
    let s = spec_partition(size, requested);
    lemma_partition_coverage(size, requested);
    assert forall|i: int, j: int| 0 <= i < j < s.len() implies (#[trigger] s[i]).1
        < (#[trigger] s[j]).0 by {
        lemma_plan_disjoint(s, size, i, j);
    }
}

/// Every range of an exact tiling stays inside `[0, size)`.
pub proof fn lemma_range_in_bounds(s: Seq<(u64, u64)>, size: u64, i: int)
    requires
        covers_exactly(s, size),
        0 <= i < s.len(),
    ensures
        s[i].0 <= s[i].1 < size,
{
    if i < s.len() - 1 {
        lemma_plan_disjoint(s, size, i, s.len() - 1);
    }
}

/// In a plan that tiles `[0, size)` exactly, the range containing a byte
/// exists: search forward from a range that starts at or before the byte.
proof fn lemma_owner_exists_from(s: Seq<(u64, u64)>, size: u64, b: u64, k: int)
    requires
        covers_exactly(s, size),
        b < size,
        0 <= k < s.len(),
        s[k].0 <= b,
    ensures
        exists|i: int| 0 <= i < s.len() && (#[trigger] s[i]).0 <= b <= s[i].1,
    decreases s.len() - k,
{
    if b <= s[k].1 {
        assert(s[k].0 <= b <= s[k].1);
    } else {
        assert(k < s.len() - 1);
        lemma_owner_exists_from(s, size, b, k + 1);
    }
}

/// Every byte of `[0, size)` lies in exactly one range of a plan that
/// tiles the resource exactly: each byte has a single owning fetcher.
pub proof fn lemma_unique_owner(s: Seq<(u64, u64)>, size: u64, b: u64)
    requires
        covers_exactly(s, size),
        b < size,
    ensures
        exists|i: int| 0 <= i < s.len() && (#[trigger] s[i]).0 <= b <= s[i].1,
        forall|i: int, j: int|
            0 <= i < s.len() && 0 <= j < s.len() && (#[trigger] s[i]).0 <= b <= s[i].1
                && (#[trigger] s[j]).0 <= b <= s[j].1 ==> i == j,
{
    lemma_owner_exists_from(s, size, b, 0);
    assert forall|i: int, j: int|
        0 <= i < s.len() && 0 <= j < s.len() && (#[trigger] s[i]).0 <= b <= s[i].1
            && (#[trigger] s[j]).0 <= b <= s[j].1 implies i == j by {
        if i < j {
            lemma_plan_disjoint(s, size, i, j);
        }
        if j < i {
            lemma_plan_disjoint(s, size, j, i);
        }
    }
}

/// Partition determinism: the plan is a function of `(size, requested)`
/// alone, so any two plans produced for the same inputs are identical.
pub proof fn lemma_partition_deterministic(
    a: Seq<(u64, u64)>,
    b: Seq<(u64, u64)>,
    size: u64,
    requested: u32,
)
    requires
        a == spec_partition(size, requested),
        b == spec_partition(size, requested),
    ensures
        a == b,
{
}

} // verus!

