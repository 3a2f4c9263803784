//! Arithmetic on millisecond timestamps.
//!
//! Timestamps come from the caller as non-decreasing milliseconds. Every
//! duration is computed with clamping, so a timestamp that runs backwards
//! yields a zero duration and a deadline past the end of time is the end of
//! time.

use vstd::prelude::*;

verus! {

/// Milliseconds from `since_ms` to `now_ms`; zero where the clock ran backwards.
pub open spec fn elapsed(now_ms: u64, since_ms: u64) -> u64 {
    if now_ms - since_ms < 0 {
        0
    } else {
        (now_ms - since_ms) as u64
    }
}

/// Milliseconds `duration_ms` after `now_ms`, clamped to the largest timestamp.
pub open spec fn expiry(now_ms: u64, duration_ms: u64) -> u64 {
    if now_ms + duration_ms > u64::MAX {
        u64::MAX
    } else {
        (now_ms + duration_ms) as u64
    }
}

/// A clock that stands still or runs backwards yields a zero duration, and
/// no duration is longer than the clock has run.
pub proof fn lemma_elapsed_is_clamped(now_ms: u64, since_ms: u64)
    ensures
        now_ms <= since_ms ==> elapsed(now_ms, since_ms) == 0,
        now_ms >= since_ms ==> elapsed(now_ms, since_ms) == now_ms - since_ms,
        elapsed(now_ms, since_ms) <= now_ms,
{
}

/// A deadline is never before its start, and it is exact wherever it fits.
pub proof fn lemma_expiry_is_clamped(now_ms: u64, duration_ms: u64)
    ensures
        expiry(now_ms, duration_ms) >= now_ms,
        expiry(now_ms, duration_ms) >= duration_ms,
        now_ms + duration_ms <= u64::MAX ==> expiry(now_ms, duration_ms) == now_ms + duration_ms,
        elapsed(expiry(now_ms, duration_ms), now_ms) <= duration_ms,
{
}

} // verus!
