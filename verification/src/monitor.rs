//! In-flight size watching for a pass.
//!
//! While a pass encodes, the growing output artifact's byte size is sampled
//! after each video frame. Once a sample exceeds the pass's target, the
//! monitor latches: the pipeline should stop accepting new frames for the
//! track and go straight to a normal drain, so the container still gets a
//! valid trailer, and the pass controller can measure and discard the
//! attempt without spending the rest of the encode on it.

use vstd::prelude::*;

verus! {

/// Watches the output artifact's size against one pass's target.
pub struct SizeBudgetMonitor {
    /// The pass's target size in bytes.
    pub target_bytes: u64,
    /// Whether any sample so far exceeded the target; never resets within
    /// a pass.
    pub exceeded: bool,
}

impl SizeBudgetMonitor {
    /// A fresh monitor for a pass with the given target.
    pub fn new(target_bytes: u64) -> (r: SizeBudgetMonitor)
        ensures
            r.target_bytes == target_bytes,
            !r.exceeded,
    {
        SizeBudgetMonitor { target_bytes, exceeded: false }
    }

    /// Feeds one sample of the artifact's current byte size; answers
    /// whether feeding must stop. The answer latches: once a sample
    /// exceeds the target, every later answer is also to stop.
    pub fn sample(&mut self, artifact_bytes: u64) -> (stop: bool)
        ensures
            final(self).target_bytes == old(self).target_bytes,
            final(self).exceeded == (old(self).exceeded || artifact_bytes > old(
                self,
            ).target_bytes),
            stop == final(self).exceeded,
    {
        if artifact_bytes > self.target_bytes {
            self.exceeded = true;
        }
        self.exceeded
    }

    /// Whether any sample so far exceeded the target.
    pub fn has_exceeded(&self) -> (r: bool)
        ensures
            r == self.exceeded,
    {
        self.exceeded
    }
}

} // verus!
