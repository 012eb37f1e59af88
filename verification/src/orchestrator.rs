//! The transfer lifecycle: a state machine from probe to terminal state.
//!
//! `Probing → Planning → Transferring → Finalizing → Done`, with `Failed`
//! reachable from probing (bad probe) and from transferring (an exhausted
//! chunk or a placement error).  Each transition is a method whose
//! contract pins the next state, the recorded error, and — on a fatal
//! chunk failure — exactly which sibling fetchers must be cancelled.
//! The terminal states accept no transition at all.

use vstd::prelude::*;
use crate::track;
use crate::Errors;

verus! {

/// Lifecycle phase of one transfer.
#[derive(Clone, Copy, Debug, PartialEq, Eq, Structural)]
pub enum TransferState {
    Probing,
    Planning,
    Transferring,
    Finalizing,
    Done,
    Failed,
}

/// Drives one transfer: owns the completion tracker, fixes the terminal
/// error, and decides which fetchers to cancel when one fails.
pub struct Orchestrator {
    pub state: TransferState,
    pub tracker: track::Status,
    pub error: Option<Errors>,
}

impl Orchestrator {
    /// The machine's invariant: the tracker is well formed, an error is
    /// recorded exactly in the failed state, and from finalizing on,
    /// every chunk of the plan has been placed.
    pub open spec fn wf(&self) -> bool {
        &&& self.tracker.wf()
        &&& (self.error is Some <==> self.state is Failed)
        &&& ((self.state is Finalizing || self.state is Done) ==> self.tracker.all_marked())
    }

    /// A new transfer, about to probe.
    pub fn new() -> (o: Orchestrator)
        ensures
            o.wf(),
            o.state is Probing,
            o.tracker.marked() == Set::<usize>::empty(),
            o.error is None,
    {
        Orchestrator {
            state: TransferState::Probing,
            tracker: track::Status::new(0),
            error: None,
        }
    }

    /// Probing → Planning, on a successful probe.
    pub fn probe_succeeded(&mut self)
        requires
            old(self).wf(),
            old(self).state is Probing,
        ensures
            final(self).wf(),
            final(self).state is Planning,
            final(self).tracker == old(self).tracker,
            final(self).error is None,
    {
        self.state = TransferState::Planning;
    }

    /// Probing → Failed, on any probe error.  No fetcher was spawned yet,
    /// so there is nothing to cancel.
    pub fn probe_failed(&mut self, e: Errors)
        requires
            old(self).wf(),
            old(self).state is Probing,
        ensures
            final(self).wf(),
            final(self).state is Failed,
            final(self).error == Some(e),
            final(self).tracker == old(self).tracker,
    {
        self.error = Some(e);
        self.state = TransferState::Failed;
    }

    /// Planning → Transferring: a plan of `total_chunks` ranges is fixed,
    /// one fetcher per range may now be spawned, and nothing is placed.
    pub fn plan_ready(&mut self, total_chunks: usize)
        requires
            old(self).wf(),
            old(self).state is Planning,
        ensures
            final(self).wf(),
            final(self).state is Transferring,
            final(self).tracker.total_chunks == total_chunks,
            final(self).tracker.marked() == Set::<usize>::empty(),
            final(self).error is None,
    {
        self.tracker = track::Status::new(total_chunks);
        self.state = TransferState::Transferring;
    }

    /// One segment was durably placed: it is marked in the tracker, and
    /// the machine moves to Finalizing exactly when that completed the
    /// plan.
    pub fn segment_placed(&mut self, index: usize) -> (done: bool)
        requires
            old(self).wf(),
            old(self).state is Transferring,
            index < old(self).tracker.total_chunks,
        ensures
            final(self).wf(),
            final(self).tracker.total_chunks == old(self).tracker.total_chunks,
            final(self).tracker.marked() == old(self).tracker.marked().insert(index),
            done == final(self).tracker.all_marked(),
            done ==> final(self).state is Finalizing,
            !done ==> final(self).state is Transferring,
            final(self).error is None,
    {
        self.tracker.push(index);
        let done = self.tracker.check();
        if done {
            self.state = TransferState::Finalizing;
        }
        done
    }

    /// The still-unplaced indices other than `failing`, in increasing
    /// order: the fetchers that may still be in flight and must be
    /// cancelled.
    fn cancel_list(&self, failing: usize) -> (cancel: Vec<usize>)
        requires
            self.tracker.wf(),
        ensures
            forall|c: usize|
                #[trigger] cancel@.contains(c) <==> (c < self.tracker.total_chunks && c != failing
                    && !self.tracker.marked().contains(c)),
            forall|a: int, b: int| 0 <= a < b < cancel@.len() ==> cancel@[a] < cancel@[b],
    {
        let mut cancel: Vec<usize> = Vec::new();
        let mut c: usize = 0;
        while c < self.tracker.total_chunks
            invariant
                c <= self.tracker.total_chunks,
                forall|x: usize|
                    #[trigger] cancel@.contains(x) <==> (x < c && x != failing
                        && !self.tracker.marked().contains(x)),
                forall|a: int, b: int| 0 <= a < b < cancel@.len() ==> cancel@[a] < cancel@[b],
                forall|a: int| 0 <= a < cancel@.len() ==> cancel@[a] < c,
            decreases self.tracker.total_chunks - c,
        {
            let ghost before = cancel@;
            if c != failing && !self.tracker.contains(c) {
                cancel.push(c);
                proof {
                    assert forall|x: usize| #[trigger] cancel@.contains(x) implies (x < c + 1 && x
                        != failing && !self.tracker.marked().contains(x)) by {
                        let k = choose|k: int| 0 <= k < cancel@.len() && cancel@[k] == x;
                        if k < before.len() {
                            assert(before[k] == x);
                            assert(before.contains(x));
                        }
                    }
                    assert forall|x: usize|
                        (x < c + 1 && x != failing && !self.tracker.marked().contains(
                            x,
                        )) implies #[trigger] cancel@.contains(x) by {
                        if x < c {
                            assert(before.contains(x));
                            let k = choose|k: int| 0 <= k < before.len() && before[k] == x;
                            assert(cancel@[k] == x);
                        } else {
                            assert(cancel@[before.len() as int] == x);
                        }
                    }
                }
            } else {
                proof {
                    assert forall|x: usize|
                        (x < c + 1 && x != failing && !self.tracker.marked().contains(
                            x,
                        )) implies #[trigger] cancel@.contains(x) by {
                        assert(x != c);
                    }
                }
            }
            c = c + 1;
        }
        cancel
    }

    /// Transferring → Failed: chunk `index` exhausted its retry budget.
    /// The recorded error names the failing index and its cause, and the
    /// returned list names every other still-unplaced index, whose
    /// fetchers must be cancelled before the machine settles in Failed.
    pub fn chunk_failed(&mut self, index: usize, cause: String) -> (cancel: Vec<usize>)
        requires
            old(self).wf(),
            old(self).state is Transferring,
        ensures
            final(self).wf(),
            final(self).state is Failed,
            final(self).error == Some(Errors::ChunkFetchFailed { index, cause }),
            final(self).tracker == old(self).tracker,
            forall|c: usize|
                #[trigger] cancel@.contains(c) <==> (c < old(self).tracker.total_chunks && c
                    != index && !old(self).tracker.marked().contains(c)),
            forall|a: int, b: int| 0 <= a < b < cancel@.len() ==> cancel@[a] < cancel@[b],
    {
        let cancel = self.cancel_list(index);
        self.error = Some(Errors::ChunkFetchFailed { index, cause });
        self.state = TransferState::Failed;
        cancel
    }

    /// Transferring → Failed: writing segment `index` into the
    /// destination failed.  Cancellation works as for a failed chunk.
    pub fn placement_failed(&mut self, index: usize, cause: String) -> (cancel: Vec<usize>)
        requires
            old(self).wf(),
            old(self).state is Transferring,
        ensures
            final(self).wf(),
            final(self).state is Failed,
            final(self).error == Some(Errors::PlacementFailed { index, cause }),
            final(self).tracker == old(self).tracker,
            forall|c: usize|
                #[trigger] cancel@.contains(c) <==> (c < old(self).tracker.total_chunks && c
                    != index && !old(self).tracker.marked().contains(c)),
            forall|a: int, b: int| 0 <= a < b < cancel@.len() ==> cancel@[a] < cancel@[b],
    {
        let cancel = self.cancel_list(index);
        self.error = Some(Errors::PlacementFailed { index, cause });
        self.state = TransferState::Failed;
        cancel
    }

    /// Finalizing → Done, once the destination is flushed to stable
    /// storage.  Done is only reachable with every chunk placed.
    pub fn flush_succeeded(&mut self)
        requires
            old(self).wf(),
            old(self).state is Finalizing,
        ensures
            final(self).wf(),
            final(self).state is Done,
            final(self).tracker == old(self).tracker,
            final(self).error is None,
    {
        self.state = TransferState::Done;
    }
}

} // verus!
