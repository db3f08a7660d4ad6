//! The fixed backoff schedule of the retry controller.

use vstd::prelude::*;

verus! {

/// Number of entries of the backoff schedule; a fetch backs off at most this often.
pub const SCHEDULE_LEN: usize = 13;

/// Longest wait of the schedule, and the bound that a `Retry-After` value must
/// stay under to be honoured.
pub const RETRY_AFTER_LIMIT: u64 = 377;

/// The waits, in seconds, that successive rate-limited attempts sleep for.
pub open spec fn schedule() -> Seq<u64> {
    seq![1, 2, 3, 5, 8, 13, 21, 34, 55, 89, 144, 233, 377]
}

/// The wait before retry number `attempt` (counted from zero), or `None` once
/// the schedule is used up.
pub fn backoff_secs(attempt: usize) -> (wait: Option<u64>)
    ensures
        attempt < SCHEDULE_LEN ==> wait == Some(schedule()[attempt as int]),
        attempt >= SCHEDULE_LEN ==> wait is None,
{
    let table: [u64; 13] = [1, 2, 3, 5, 8, 13, 21, 34, 55, 89, 144, 233, 377];
    if attempt < SCHEDULE_LEN {
        Some(table[attempt])
    } else {
        None
    }
}

/// The schedule has `SCHEDULE_LEN` entries, starts at one second, grows
/// strictly from entry to entry, and ends at `RETRY_AFTER_LIMIT`.
pub proof fn lemma_schedule_shape()
    ensures
        schedule().len() == SCHEDULE_LEN,
        schedule()[0] == 1,
        schedule()[SCHEDULE_LEN - 1] == RETRY_AFTER_LIMIT,
        forall|i: int, j: int| 0 <= i < j < schedule().len() ==> schedule()[i] < schedule()[j],
        forall|i: int| 0 <= i < schedule().len() ==> 1 <= #[trigger] schedule()[i] <= RETRY_AFTER_LIMIT,
{
}

} // verus!
