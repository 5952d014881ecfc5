//! Timing decisions of the event producer. The producer runs beside the
//! consumer loop, polls the input source, and emits a tick whenever a
//! full interval has elapsed since the previous one; these two functions
//! decide how long to poll and when a tick is due.

use vstd::prelude::*;

verus! {

/// The configured tick interval, in milliseconds: the consumer redraws
/// at least once per interval even when no key arrives.
pub const TICK_INTERVAL_MS: u64 = 200;

/// How long the producer may poll for input before the next tick is
/// due: the part of the interval not yet elapsed, and nothing at all
/// once the deadline has been reached or passed.
pub fn poll_timeout_ms(interval_ms: u64, elapsed_ms: u64) -> (r: u64)
    ensures
        r == if elapsed_ms >= interval_ms {
            0u64
        } else {
            (interval_ms - elapsed_ms) as u64
        },
        r <= interval_ms,
{
    if elapsed_ms >= interval_ms {
        0
    } else {
        interval_ms - elapsed_ms
    }
}

/// Whether the next tick is due: ticks fire no earlier than one full
/// interval after the previous one, and a waiting key press never
/// pushes the deadline back.
pub fn tick_due(interval_ms: u64, elapsed_ms: u64) -> (due: bool)
    ensures
        due == (elapsed_ms >= interval_ms),
{
    elapsed_ms >= interval_ms
}

} // verus!
