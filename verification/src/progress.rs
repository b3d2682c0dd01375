//! Rate limiting for progress reporting.
//!
//! Progress is surfaced as human-readable status lines on a side channel.
//! The lines are rate-limited: one is owed once roughly a second has
//! passed or a hundred frames have gone by since the last one, whichever
//! comes first. The clock lives with the caller; this is only the
//! decision.

use vstd::prelude::*;

verus! {

/// A status line is owed every this many frames.
pub const PROGRESS_FRAME_INTERVAL: u64 = 100;

/// A status line is owed every this many milliseconds.
pub const PROGRESS_MILLIS_INTERVAL: u64 = 1000;

/// Whether a new status line is owed, given how many frames and how many
/// milliseconds have gone by since the last one.
pub fn should_log_progress(frames_since_last: u64, millis_since_last: u64) -> (r: bool)
    ensures
        r == (frames_since_last >= PROGRESS_FRAME_INTERVAL || millis_since_last
            >= PROGRESS_MILLIS_INTERVAL),
{
    frames_since_last >= PROGRESS_FRAME_INTERVAL || millis_since_last >= PROGRESS_MILLIS_INTERVAL
}

} // verus!
