//! Probe evaluation: turning the metadata response for a resource into a
//! transfer description, or the error that forbids a chunked transfer.

use vstd::prelude::*;
use vstd::string::StringExecFns;
use crate::plan;
use crate::Errors;

verus! {

/// A metadata response, reduced to the two header values the engine
/// reads.  `None` stands for an absent header; a present value carries
/// the raw header bytes.
#[derive(Debug)]
pub struct ProbeResponse {
    pub content_length: Option<Vec<u8>>,
    pub accept_ranges: Option<Vec<u8>>,
}

/// Whether every byte is an ASCII decimal digit.
pub open spec fn all_digits(s: Seq<u8>) -> bool {
    forall|i: int| 0 <= i < s.len() ==> 48 <= #[trigger] s[i] <= 57
}

/// The number a string of ASCII decimal digits denotes.
pub open spec fn decimal_value(s: Seq<u8>) -> int
    decreases s.len(),
{
    if s.len() == 0 {
        0
    } else {
        decimal_value(s.drop_last()) * 10 + (s.last() - 48)
    }
}

/// A digit string denotes a non-negative number.
proof fn lemma_decimal_nonneg(s: Seq<u8>)
    requires
        all_digits(s),
    ensures
        decimal_value(s) >= 0,
    decreases s.len(),
{
    if s.len() > 0 {
        lemma_decimal_nonneg(s.drop_last());
    }
}

/// Extending a digit string never shrinks the number it denotes.
proof fn lemma_decimal_prefix_le(s: Seq<u8>, k: int)
    requires
        all_digits(s),
        0 <= k <= s.len(),
    ensures
        decimal_value(s.take(k)) <= decimal_value(s),
    decreases s.len() - k,
{
    if k == s.len() {
        assert(s.take(k) =~= s);
    } else {
        lemma_decimal_prefix_le(s, k + 1);
        assert(s.take(k + 1).drop_last() =~= s.take(k));
        assert(all_digits(s.take(k)));
        lemma_decimal_nonneg(s.take(k));
        assert(decimal_value(s.take(k + 1)) == decimal_value(s.take(k)) * 10 + (s[k] - 48));
    }
}

/// Parses an ASCII decimal number: `Some` exactly on nonempty all-digit
/// strings whose value fits in a `u64`, and then the denoted value.
pub fn parse_u64(s: &Vec<u8>) -> (r: Option<u64>)
    ensures
        match r {
            Some(v) => s@.len() > 0 && all_digits(s@) && v == decimal_value(s@),
            None => s@.len() == 0 || !all_digits(s@) || decimal_value(s@) > u64::MAX,
        },
{
    if s.len() == 0 {
        return None;
    }
    let mut acc: u64 = 0;
    let mut i: usize = 0;
    while i < s.len()
        invariant
            i <= s@.len(),
            s@.len() > 0,
            all_digits(s@.take(i as int)),
            acc == decimal_value(s@.take(i as int)),
        decreases s@.len() - i,
    {
        let b: u8 = s[i];
        if b < 48 || b > 57 {
            assert(!all_digits(s@));
            return None;
        }
        let wide: u128 = (acc as u128) * 10 + ((b - 48) as u128);
        proof {
            assert(s@.take(i as int + 1).drop_last() =~= s@.take(i as int));
            assert(decimal_value(s@.take(i as int + 1)) == acc * 10 + (b - 48));
        }
        if wide > u64::MAX as u128 {
            proof {
                if all_digits(s@) {
                    lemma_decimal_prefix_le(s@, i as int + 1);
                }
            }
            return None;
        }
        acc = wide as u64;
        i = i + 1;
    }
    proof {
        assert(s@.take(s@.len() as int) =~= s@);
    }
    Some(acc)
}

/// The bytes of the header value `none`, the only accept-ranges value
/// that denies range requests.
pub open spec fn is_none_value(s: Seq<u8>) -> bool {
    s.len() == 4 && s[0] == 110 && s[1] == 111 && s[2] == 110 && s[3] == 101
}

/// Whether the bytes spell the header value `none`.
fn is_none_bytes(v: &Vec<u8>) -> (r: bool)
    ensures
        r == is_none_value(v@),
{
    v.len() == 4 && v[0] == 110 && v[1] == 111 && v[2] == 110 && v[3] == 101
}

/// Range-support policy: an absent accept-ranges header is accepted
/// optimistically; any present value other than `none` is accepted too.
pub open spec fn accept_ranges_ok(a: &Option<Vec<u8>>) -> bool {
    match a {
        Some(v) => !is_none_value(v@),
        None => true,
    }
}

/// Whether the probe response carries a usable content length: a present
/// header whose bytes are a decimal number fitting in a `u64`.
pub open spec fn has_content_length(h: &ProbeResponse) -> bool {
    match h.content_length {
        Some(b) => b@.len() > 0 && all_digits(b@) && decimal_value(b@) <= u64::MAX,
        None => false,
    }
}

/// The resource size the probe response declares.
pub open spec fn content_length_of(h: &ProbeResponse) -> int {
    match h.content_length {
        Some(b) => decimal_value(b@),
        None => 0,
    }
}

/// The requested chunk count narrowed to the planner's argument type.
pub open spec fn clamp_requested(chunks: usize) -> u32 {
    if chunks > u32::MAX {
        u32::MAX
    } else {
        chunks as u32
    }
}

/// The common chunk size of a plan: `size / max(1, min(requested, size))`,
/// or zero for an empty resource.
pub open spec fn spec_chunk_size(size: u64, chunks: usize) -> int {
    if size == 0 {
        0
    } else {
        size as int / plan::clamped_chunks(size, clamp_requested(chunks)) as int
    }
}

/// Everything the engine knows about the resource after a successful
/// probe: its size, the derived plan, and the raw accept-ranges value.
#[derive(Debug)]
pub struct Info {
    pub chunks: usize,
    /// Total resource size in bytes, from the content-length header.
    pub size: u64,
    pub chunk_size: u64,
    pub ranges: Vec<(u64, u64)>,
    pub accept_ranges: Option<Vec<u8>>,
}

impl Info {
    /// How an `Info` relates to the probe response and the requested
    /// chunk count it was derived from.
    pub open spec fn derived_from(&self, h: &ProbeResponse, chunks: usize) -> bool {
        &&& has_content_length(h)
        &&& self.size == content_length_of(h)
        &&& self.chunks == chunks
        &&& self.chunk_size == spec_chunk_size(self.size, chunks)
        &&& self.ranges@ == plan::spec_partition(self.size, clamp_requested(chunks))
        &&& self.accept_ranges == h.accept_ranges
    }

    /// Derives the transfer description from a probe response: `Ok`
    /// exactly when the response carries a usable content length,
    /// otherwise the probe has failed.
    pub fn new(headers: ProbeResponse, chunks: usize) -> (r: Result<Info, Errors>)
        ensures
            match r {
                Ok(info) => info.derived_from(&headers, chunks),
                Err(e) => !has_content_length(&headers) && e matches Errors::ProbeFailed { .. },
            },
    {
        let size: u64 = match &headers.content_length {
            Some(b) => match parse_u64(b) {
                Some(v) => v,
                None => {
                    return Err(
                        Errors::ProbeFailed {
                            cause: "content-length is not a decimal byte count".to_owned(),
                        },
                    );
                },
            },
            None => {
                return Err(
                    Errors::ProbeFailed { cause: "response has no content-length".to_owned() },
                );
            },
        };
        let requested: u32 = if chunks > u32::MAX as usize {
            u32::MAX
        } else {
            chunks as u32
        };
        let chunk_size: u64 = if size == 0 {
            0
        } else {
            let clamped: u64 = if requested == 0 {
                1
            } else if requested as u64 <= size {
                requested as u64
            } else {
                size
            };
            size / clamped
        };
        let ranges = plan::partition(size, requested);
        Ok(Info { chunks, size, chunk_size, ranges, accept_ranges: headers.accept_ranges })
    }

    /// Whether the probe response allows range requests: false only when
    /// the accept-ranges header explicitly says `none`.
    pub fn check_accept_ranges(&self) -> (r: bool)
        ensures
            r == accept_ranges_ok(&self.accept_ranges),
    {
        match &self.accept_ranges {
            Some(v) => !is_none_bytes(v),
            None => true,
        }
    }
}

/// A transfer about to run: the resource locator, the destination path,
/// and the probed transfer description.
#[derive(Debug)]
pub struct Download {
    pub url: String,
    pub path: String,
    pub info: Info,
}

impl Download {
    /// Evaluates a probe response into a ready transfer: `Ok` exactly
    /// when the response has a usable content length and does not deny
    /// range requests; the error otherwise names which check failed.
    pub fn new(url: String, path: String, chunks: usize, headers: ProbeResponse) -> (r: Result<
        Download,
        Errors,
    >)
        ensures
            match r {
                Ok(d) => {
                    &&& has_content_length(&headers)
                    &&& accept_ranges_ok(&headers.accept_ranges)
                    &&& d.url == url
                    &&& d.path == path
                    &&& d.info.derived_from(&headers, chunks)
                },
                Err(e) => {
                    &&& !(has_content_length(&headers) && accept_ranges_ok(&headers.accept_ranges))
                    &&& (!has_content_length(&headers) ==> e matches Errors::ProbeFailed { .. })
                    &&& (has_content_length(&headers) ==> e == Errors::UnsupportedRangeRequests)
                },
            },
    {
        let info = match Info::new(headers, chunks) {
            Ok(info) => info,
            Err(e) => {
                return Err(e);
            },
        };
        if info.check_accept_ranges() {
            Ok(Download { url, path, info })
        } else {
            Err(Errors::UnsupportedRangeRequests)
        }
    }

    /// The inclusive byte range of chunk `idx` in the plan.
    pub fn get_ranges(&self, idx: usize) -> (r: (u64, u64))
        requires
            idx < self.info.ranges@.len(),
        ensures
            r == self.info.ranges@[idx as int],
    {
        (self.info.ranges[idx].0, self.info.ranges[idx].1)
    }
}

} // verus!
