//! Looking up stored reports and streaming traps.

use vstd::prelude::*;

use super::ApiError;
use crate::text::push_str;

verus! {

/// Parameters of a trap stream.
#[derive(Debug, Clone, Copy)]
pub struct StreamParams {
    pub seed: Option<u64>,
    pub count: Option<usize>,
}

/// `v` clamped to `[low, high]`.
pub open spec fn clamped(v: int, low: int, high: int) -> int {
    if v < low {
        low
    } else if v > high {
        high
    } else {
        v
    }
}

/// A clamped value lies within its bounds.
pub proof fn lemma_clamped_within(v: int, low: int, high: int)
    requires
        low <= high,
    ensures
        low <= clamped(v, low, high) <= high,
        low <= v <= high ==> clamped(v, low, high) == v,
        v < low ==> clamped(v, low, high) == low,
        v > high ==> clamped(v, low, high) == high,
{
}

/// Number of traps a stream carries: the requested count (20 when none is
/// given), clamped to `[1, 1000]`.
pub fn stream_count(params: &StreamParams) -> (n: usize)
    ensures
        n == clamped(
            match params.count {
                Some(c) => c as int,
                None => 20,
            },
            1,
            1000,
        ),
{
    let requested: usize = match params.count {
        Some(c) => c,
        None => 20,
    };
    if requested < 1 {
        1
    } else if requested > 1000 {
        1000
    } else {
        requested
    }
}

/// The message for a report id that is not stored.
pub open spec fn not_found_message(id: Seq<char>) -> Seq<char> {
    "Report "@ + id + " not found. Run POST /v1/stress-test first"@
}

/// The refusal for a report id that is not stored.
pub fn report_not_found(id: &str) -> (e: ApiError)
    ensures
        e matches ApiError::NotFound(m) && m@ == not_found_message(id@),
{
    let mut m = String::new();
    push_str(&mut m, "Report ");
    push_str(&mut m, id);
    push_str(&mut m, " not found. Run POST /v1/stress-test first");
    assert(m@ =~= not_found_message(id@));
    ApiError::NotFound(m)
}

} // verus!
