//! The dispute window on its own.
use vstd::prelude::*;

verus! {

/// Seconds after submission during which a result may be disputed.
pub const DISPUTE_WINDOW_SECS: u64 = 86400;

/// Whether a result submitted at `submitted_at` may still be disputed at `now`.
pub fn is_dispute_window_open(submitted_at: u64, now: u64) -> (r: bool)
    requires
        submitted_at + DISPUTE_WINDOW_SECS <= u64::MAX,
    ensures
        r == (now <= submitted_at + DISPUTE_WINDOW_SECS),
{
    now <= submitted_at + DISPUTE_WINDOW_SECS
}

/// Seconds left at `now` in the window of a result submitted at `submitted_at`.
pub fn dispute_window_remaining(submitted_at: u64, now: u64) -> (r: u64)
    requires
        submitted_at + DISPUTE_WINDOW_SECS <= u64::MAX,
    ensures
        now >= submitted_at + DISPUTE_WINDOW_SECS ==> r == 0,
        now < submitted_at + DISPUTE_WINDOW_SECS ==> r == submitted_at + DISPUTE_WINDOW_SECS - now,
{
    let window_end = submitted_at + DISPUTE_WINDOW_SECS;
    if now >= window_end {
        0
    } else {
        window_end - now
    }
}

} // verus!
