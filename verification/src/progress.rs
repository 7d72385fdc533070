//! Completion-progress estimation.
//!
//! After each batch the engine derives a completion percentage from the
//! batch's last timestamp relative to the stream's total duration. The
//! percentage is computed in hundredths of a percent — two decimal places
//! — in exact integer arithmetic. It is observational only: it never
//! affects aggregation order or termination.

use vstd::prelude::*;
use vstd::arithmetic::div_mod::lemma_div_is_ordered;
use vstd::arithmetic::mul::lemma_mul_inequality;
use crate::action::ChatAction;

verus! {

/// The completion percentage, in hundredths of a percent, of a stream
/// position `ts_ms` within a total duration `duration_ms`.
pub open spec fn progress_hundredths(ts_ms: int, duration_ms: int) -> int {
    (ts_ms * 10000) / duration_ms
}

/// The timestamp of a batch's last record, when the batch is non-empty
/// and its last record carries one.
pub open spec fn last_timestamp(batch: Seq<ChatAction>) -> Option<u64> {
    if batch.len() == 0 {
        None
    } else {
        batch.last().timestamp_ms
    }
}

/// Reports the completion reached by a batch, in hundredths of a percent:
/// the batch's last timestamp over the total duration. When the batch is
/// empty or its last record has no timestamp, nothing is reported — that
/// batch is silently skipped, not an error.
pub fn report_progress(batch: &Vec<ChatAction>, duration_ms: u64) -> (r: Option<u128>)
    requires
        duration_ms > 0,
    ensures
        r is Some <==> last_timestamp(batch@) is Some,
        r matches Some(p) ==> p == progress_hundredths(
            last_timestamp(batch@)->Some_0 as int,
            duration_ms as int,
        ),
{
    if batch.len() == 0 {
        return None;
    }
    let last = &batch[batch.len() - 1];
    match last.timestamp_ms {
        None => None,
        Some(ts) => Some((ts as u128) * 10000 / (duration_ms as u128)),
    }
}

/// Law: progress never moves backwards. When one timestamp is at most
/// another, its reported percentage is at most the other's, so across a
/// run with non-decreasing per-batch timestamps the reported percentages
/// are non-decreasing.
pub proof fn lemma_progress_monotonic(ts1: u64, ts2: u64, duration_ms: u64)
    requires
        duration_ms > 0,
        ts1 <= ts2,
    ensures
        progress_hundredths(ts1 as int, duration_ms as int) <= progress_hundredths(
            ts2 as int,
            duration_ms as int,
        ),
{
    lemma_mul_inequality(ts1 as int, ts2 as int, 10000);
    lemma_div_is_ordered(ts1 as int * 10000, ts2 as int * 10000, duration_ms as int);
}

} // verus!
