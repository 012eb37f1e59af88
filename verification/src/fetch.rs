//! Per-range fetch policy: bounded retry with exponential backoff.
//!
//! A transient transport failure never loops forever; the fetch loop asks
//! this state machine what to do next, and after a capped number of
//! attempts the answer is a typed "give up" that fails the whole chunk.

use vstd::prelude::*;

verus! {

/// Retry policy for one range request: at most `max_attempts` tries, the
/// delay before each retry starting at `base_delay_ms` and doubling up to
/// `max_delay_ms`.
#[derive(Clone, Copy, Debug, PartialEq, Eq, Structural)]
pub struct RetryPolicy {
    pub max_attempts: u32,
    pub base_delay_ms: u64,
    pub max_delay_ms: u64,
}

impl RetryPolicy {
    /// At least one attempt is made, and the starting delay is no larger
    /// than the cap.
    pub open spec fn wf(&self) -> bool {
        &&& self.max_attempts >= 1
        &&& self.base_delay_ms <= self.max_delay_ms
    }
}

/// The backoff delay before retry number `attempt` (counting from 0):
/// the base delay doubled `attempt` times, saturating at the cap.
pub open spec fn spec_backoff(base: u64, cap: u64, attempt: nat) -> u64
    decreases attempt,
{
    if attempt == 0 {
        if base <= cap {
            base
        } else {
            cap
        }
    } else {
        let prev = spec_backoff(base, cap, (attempt - 1) as nat);
        if prev <= cap / 2 {
            (2 * prev) as u64
        } else {
            cap
        }
    }
}

/// The backoff delay never exceeds the policy's cap.
pub proof fn lemma_backoff_capped(base: u64, cap: u64, attempt: nat)
    requires
        base <= cap,
    ensures
        spec_backoff(base, cap, attempt) <= cap,
    decreases attempt,
{
    if attempt > 0 {
        lemma_backoff_capped(base, cap, (attempt - 1) as nat);
    }
}

/// Computes the backoff delay before retry number `attempt`.
pub fn backoff_delay(policy: &RetryPolicy, attempt: u32) -> (d: u64)
    requires
        policy.wf(),
    ensures
        d == spec_backoff(policy.base_delay_ms, policy.max_delay_ms, attempt as nat),
{
    let cap: u64 = policy.max_delay_ms;
    let mut d: u64 = if policy.base_delay_ms <= cap {
        policy.base_delay_ms
    } else {
        cap
    };
    let mut k: u32 = 0;
    while k < attempt
        invariant
            k <= attempt,
            d == spec_backoff(policy.base_delay_ms, cap, k as nat),
            cap == policy.max_delay_ms,
        decreases attempt - k,
    {
        if d <= cap / 2 {
            d = 2 * d;
        } else {
            d = cap;
        }
        k = k + 1;
    }
    d
}

/// What the fetch loop should do after a transient failure.
#[derive(Clone, Copy, Debug, PartialEq, Eq, Structural)]
pub enum FetchStep {
    /// Wait `delay_ms`, then reissue the range request.
    Retry { delay_ms: u64 },
    /// The retry budget is exhausted: fail the chunk.  The orchestrator
    /// treats this as fatal for the whole transfer.
    Exhausted,
}

/// One concurrent unit of work: fetching the inclusive byte range
/// `[start, end]` of chunk `index`, under a bounded retry policy.
pub struct Fetcher {
    pub index: usize,
    pub start: u64,
    pub end: u64,
    /// Failed attempts recorded so far.
    pub attempts: u32,
    pub policy: RetryPolicy,
}

impl Fetcher {
    /// The range is sane, its length fits in a byte count, and no more
    /// failures were recorded than the policy admits.
    pub open spec fn wf(&self) -> bool {
        &&& self.policy.wf()
        &&& self.start <= self.end
        &&& self.end < u64::MAX
        &&& self.attempts <= self.policy.max_attempts
    }

    /// A fresh fetcher for one range of the plan, no failures yet.
    pub fn new(index: usize, range: (u64, u64), policy: RetryPolicy) -> (f: Fetcher)
        requires
            policy.wf(),
            range.0 <= range.1 < u64::MAX,
        ensures
            f.wf(),
            f.index == index,
            f.start == range.0,
            f.end == range.1,
            f.attempts == 0,
            f.policy == policy,
    {
        Fetcher { index, start: range.0, end: range.1, attempts: 0, policy }
    }

    /// How many bytes this fetcher must retrieve: both bounds inclusive.
    pub fn expected_len(&self) -> (n: u64)
        requires
            self.wf(),
        ensures
            n == self.end - self.start + 1,
    {
        self.end - self.start + 1
    }

    /// Whether the retry budget still allows another attempt.
    pub fn budget_left(&self) -> (r: bool)
        ensures
            r == (self.attempts < self.policy.max_attempts),
    {
        self.attempts < self.policy.max_attempts
    }

    /// Records one transient failure and decides what happens next: retry
    /// after an exponential-backoff delay while budget remains, otherwise
    /// give up.  Exactly when the recorded failures reach the policy's
    /// attempt cap, the answer is `Exhausted`.
    pub fn on_transient_failure(&mut self) -> (step: FetchStep)
        requires
            old(self).wf(),
            old(self).attempts < old(self).policy.max_attempts,
        ensures
            final(self).wf(),
            final(self).index == old(self).index,
            final(self).start == old(self).start,
            final(self).end == old(self).end,
            final(self).policy == old(self).policy,
            final(self).attempts == old(self).attempts + 1,
            final(self).attempts == old(self).policy.max_attempts ==> step
                == FetchStep::Exhausted,
            final(self).attempts < old(self).policy.max_attempts ==> step == (FetchStep::Retry {
                delay_ms: spec_backoff(
                    old(self).policy.base_delay_ms,
                    old(self).policy.max_delay_ms,
                    old(self).attempts as nat,
                ),
            }),
    {
        let delay: u64 = backoff_delay(&self.policy, self.attempts);
        self.attempts = self.attempts + 1;
        if self.attempts == self.policy.max_attempts {
            FetchStep::Exhausted
        } else {
            FetchStep::Retry { delay_ms: delay }
        }
    }
}

} // verus!
