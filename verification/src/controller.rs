//! The pass controller: the outer convergence loop over whole encode
//! attempts.
//!
//! A source already at or under the requested size is not transcoded at
//! all. Otherwise attempts run one after another: each gets an effective
//! target — the requested size minus the shrink accumulated so far — and
//! produces an artifact whose measured size decides the attempt's fate.
//! Fits: accepted, the run is over. Overshoots: the artifact is discarded,
//! the shrink grows by a fixed fraction of the measured size (at least one
//! byte, so rejected attempts always tighten the next target), and the next
//! attempt runs — until the attempt bound is spent or no positive target is
//! left.

use vstd::prelude::*;

use crate::error::TranscodeError;

verus! {

/// A rejected attempt shrinks the next target by the measured size over
/// this divisor — a fixed, empirically chosen damping constant, not a
/// function of the overshoot ratio.
pub const SHRINK_DIVISOR: u64 = 25;

/// Whether transcoding can be skipped outright: the source already fits
/// the requested budget, and the source itself is the result.
pub fn should_skip(source_size_bytes: u64, target_size_bytes: u64) -> (r: bool)
    ensures
        r == (source_size_bytes <= target_size_bytes),
{
    source_size_bytes <= target_size_bytes
}

/// What a measured attempt led to.
#[derive(Clone, Copy, Debug, PartialEq, Eq, Structural)]
pub enum PassOutcome {
    /// The artifact fits the requested size; the run is over.
    Accepted,
    /// The artifact overshot; run the next attempt against this effective
    /// target.
    Retry {
        /// The shrunk target for the next attempt, in bytes.
        effective_target_bytes: u64,
    },
    /// The run is over without an acceptable artifact.
    Failed(TranscodeError),
}

/// The retry loop's state across attempts of one run.
#[derive(Clone, Copy, Debug, PartialEq, Eq, Structural)]
pub struct PassState {
    /// The caller's requested size in bytes; never changes.
    pub target_bytes: u64,
    /// The shrink accumulated from rejected attempts, in bytes.
    pub additional_shrink: u64,
    /// How many attempts have been measured.
    pub attempts_done: u32,
    /// The bound on attempts; the run fails rather than exceed it.
    pub max_attempts: u32,
}

/// How much a rejected attempt adds to the accumulated shrink: the
/// measured size over the divisor, but at least one byte, so every
/// rejected attempt strictly tightens the next target.
pub open spec fn shrink_increment_spec(measured_bytes: int) -> int {
    if measured_bytes / (SHRINK_DIVISOR as int) >= 1 {
        measured_bytes / (SHRINK_DIVISOR as int)
    } else {
        1
    }
}

impl PassState {
    /// The controller's invariant between attempts: some target is left
    /// and the attempt bound is not spent beyond its limit.
    pub open spec fn well_formed(self) -> bool {
        &&& 1 <= self.target_bytes
        &&& self.additional_shrink < self.target_bytes
        &&& self.attempts_done <= self.max_attempts
        &&& 1 <= self.max_attempts
    }

    /// The state and outcome after measuring an attempt's artifact
    /// against this state.
    pub open spec fn spec_record(self, measured_bytes: int) -> (PassState, PassOutcome) {
        let counted = PassState {
            attempts_done: (self.attempts_done + 1) as u32,
            ..self
        };
        if measured_bytes <= self.target_bytes {
            (counted, PassOutcome::Accepted)
        } else if self.attempts_done + 1 >= self.max_attempts {
            (counted, PassOutcome::Failed(TranscodeError::RetriesExhausted))
        } else {
            let grown = self.additional_shrink + shrink_increment_spec(measured_bytes);
            if grown >= self.target_bytes {
                (counted, PassOutcome::Failed(TranscodeError::BudgetInfeasible))
            } else {
                (
                    PassState { additional_shrink: grown as u64, ..counted },
                    PassOutcome::Retry {
                        effective_target_bytes: (self.target_bytes - grown) as u64,
                    },
                )
            }
        }
    }

    /// A fresh run: nothing shrunk, nothing attempted.
    pub fn new(target_bytes: u64, max_attempts: u32) -> (r: PassState)
        requires
            target_bytes >= 1,
            max_attempts >= 1,
        ensures
            r == (PassState { target_bytes, additional_shrink: 0, attempts_done: 0, max_attempts }),
            r.well_formed(),
    {
        PassState { target_bytes, additional_shrink: 0, attempts_done: 0, max_attempts }
    }

    /// The byte budget the next attempt runs against: the requested size
    /// minus the accumulated shrink.
    pub fn effective_target(&self) -> (r: u64)
        requires
            self.well_formed(),
        ensures
            r == self.target_bytes - self.additional_shrink,
            r >= 1,
    {
        self.target_bytes - self.additional_shrink
    }

    /// Records one attempt's measured artifact size and decides its fate:
    /// accepted when it fits the requested size; otherwise the attempt is
    /// discarded, and the run either retries against a strictly smaller
    /// effective target, stops because the attempt bound is spent, or
    /// stops because no positive target is left.
    pub fn record_measurement(&mut self, measured_bytes: u64) -> (r: PassOutcome)
        requires
            old(self).well_formed(),
            old(self).attempts_done < old(self).max_attempts,
        ensures
            *final(self) == old(self).spec_record(measured_bytes as int).0,
            r == old(self).spec_record(measured_bytes as int).1,
            r is Retry ==> final(self).well_formed(),
            final(self).target_bytes == old(self).target_bytes,
            final(self).max_attempts == old(self).max_attempts,
            final(self).attempts_done == old(self).attempts_done + 1,
    {
        self.attempts_done = self.attempts_done + 1;
        if measured_bytes <= self.target_bytes {
            return PassOutcome::Accepted;
        }
        if self.attempts_done >= self.max_attempts {
            return PassOutcome::Failed(TranscodeError::RetriesExhausted);
        }
        let raw_increment: u64 = measured_bytes / SHRINK_DIVISOR;
        let increment: u64 = if raw_increment >= 1 {
            raw_increment
        } else {
            1
        };
        let grown: u128 = (self.additional_shrink as u128) + (increment as u128);
        if grown >= self.target_bytes as u128 {
            return PassOutcome::Failed(TranscodeError::BudgetInfeasible);
        }
        self.additional_shrink = self.additional_shrink + increment;
        PassOutcome::Retry { effective_target_bytes: self.target_bytes - self.additional_shrink }
    }
}

/// The budget discipline of the retry loop: an attempt is accepted only
/// when its measured size fits the requested target; every rejected
/// attempt that retries strictly grows the accumulated shrink — and so
/// strictly tightens the next effective target — and once the attempt
/// bound is reached an oversized attempt ends the run instead of retrying.
pub proof fn lemma_pass_budget_discipline(s: PassState, measured_bytes: int)
    requires
        s.well_formed(),
    ensures
        s.spec_record(measured_bytes).1 is Accepted ==> measured_bytes <= s.target_bytes,
        s.spec_record(measured_bytes).1 is Retry ==> s.spec_record(
            measured_bytes,
        ).0.additional_shrink > s.additional_shrink,
        (s.spec_record(measured_bytes).1 matches PassOutcome::Retry { effective_target_bytes }
            ==> effective_target_bytes < s.target_bytes - s.additional_shrink),
        measured_bytes > s.target_bytes && s.attempts_done + 1 >= s.max_attempts ==> s.spec_record(
            measured_bytes,
        ).1 == PassOutcome::Failed(TranscodeError::RetriesExhausted),
{
    if s.spec_record(measured_bytes).1 is Retry {
        vstd::arithmetic::div_mod::lemma_div_pos_is_pos(measured_bytes, SHRINK_DIVISOR as int);
    }
}

} // verus!
