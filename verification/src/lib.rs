//! A size-budgeted transcode controller.
//!
//! The crate holds the decision logic of an adaptive media compressor: a
//! caller hands it a source file's facts (size, duration, tracks) and a byte
//! budget, and the library answers how to run each encode attempt — which
//! bitrate every track gets, how the per-track decode/filter/encode conveyor
//! advances and drains, when an in-flight pass must stop accepting frames,
//! and whether a measured attempt is accepted, retried with a tighter
//! target, or given up. The blocking codec and container calls themselves
//! live outside the library; callers perform them and feed the results back
//! into these state machines.

pub mod bitrate;
pub mod controller;
pub mod error;
pub mod monitor;
pub mod pipeline;
pub mod plan;
pub mod progress;
pub mod timebase;
pub mod track;
