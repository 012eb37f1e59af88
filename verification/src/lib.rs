//! Core engine of a chunked HTTP downloader.
//!
//! A remote resource is probed for its size and range-request support,
//! partitioned into disjoint byte ranges, fetched range by range with a
//! bounded retry policy, and assembled into one contiguous destination
//! buffer while completion and progress are tracked.  Everything here is
//! pure computation and state; the surrounding binary performs the actual
//! network and file I/O and feeds the results back in as plain values.

use vstd::prelude::*;

pub mod fetch;
pub mod memory;
pub mod orchestrator;
pub mod paths;
pub mod placer;
pub mod plan;
pub mod probe;
pub mod progress;
pub mod track;

verus! {

/// Everything that can go wrong while driving a transfer.
#[derive(Debug, Clone, PartialEq, Eq)]
pub enum Errors {
    /// The metadata probe failed: no response, or no usable content length.
    ProbeFailed { cause: String },
    /// The server explicitly refuses byte-range requests.
    UnsupportedRangeRequests,
    /// One range exhausted its retry budget; the whole transfer fails.
    ChunkFetchFailed { index: usize, cause: String },
    /// Writing a fetched segment into the destination failed.
    PlacementFailed { index: usize, cause: String },
    /// An internal coordination channel closed early.
    ChannelClosed,
}

/// Result alias used throughout the engine.
pub type DResult<T> = Result<T, Errors>;

} // verus!
