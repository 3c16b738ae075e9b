//! Capture statistics: per-window rates from cumulative counters.

use vstd::prelude::*;

verus! {

/// A snapshot of the capture source's cumulative counters.
#[derive(Clone, Copy, PartialEq, Eq, Structural, Debug)]
pub struct CaptureCounters {
    pub received: u32,
    pub dropped: u32,
    pub if_dropped: u32,
}

/// The per-second rate of one counter over a window: the counter's increase,
/// clamped to zero if the cumulative value decreased (a reset or wraparound),
/// divided by the window duration.
pub open spec fn spec_delta_rate(prev: u32, cur: u32, duration: u32) -> int {
    (if cur >= prev {
        cur - prev
    } else {
        0
    }) / (duration as int)
}

/// Compute the per-window rates of the received, dropped and
/// interface-dropped counters between two snapshots.
pub fn sample(prev: &CaptureCounters, cur: &CaptureCounters, duration: u32) -> (r: (u32, u32, u32))
    requires
        duration > 0,
    ensures
        r.0 == spec_delta_rate(prev.received, cur.received, duration),
        r.1 == spec_delta_rate(prev.dropped, cur.dropped, duration),
        r.2 == spec_delta_rate(prev.if_dropped, cur.if_dropped, duration),
{
    (
        cur.received.saturating_sub(prev.received) / duration,
        cur.dropped.saturating_sub(prev.dropped) / duration,
        cur.if_dropped.saturating_sub(prev.if_dropped) / duration,
    )
}

/// A capture-stats delta is never negative, even when the underlying
/// cumulative counter decreased between the two snapshots.
pub proof fn lemma_delta_never_negative(prev: u32, cur: u32, duration: u32)
    requires
        duration > 0,
    ensures
        spec_delta_rate(prev, cur, duration) >= 0,
{
}

} // verus!
