//! The error taxonomy of a transcode run.
//!
//! Every failure is fatal for the whole run except exceeding the size
//! budget, which the pass controller handles by retrying with a smaller
//! target. Each variant names the stage that failed so a caller can exit
//! with a diagnostic.

use vstd::prelude::*;

verus! {

/// Why a transcode run (or one of its steps) failed.
#[derive(Clone, Copy, Debug, PartialEq, Eq, Structural)]
pub enum TranscodeError {
    /// The source or output container could not be opened.
    ContainerOpen,
    /// A packet could not be decoded.
    Decode,
    /// A frame could not be encoded.
    Encode,
    /// The output container's header could not be written.
    HeaderWrite,
    /// The output container's trailer could not be written.
    TrailerWrite,
    /// The produced artifact's size could not be read back.
    MetadataRead,
    /// The byte budget leaves no positive bitrate for a track.
    BudgetInfeasible,
    /// Every allowed attempt overshot the target size.
    RetriesExhausted,
    /// A packet timestamp could not be carried into the output time base.
    BadTimestamp,
}

impl TranscodeError {
    /// The diagnostic text for this error, naming the stage that failed.
    pub open spec fn describe_spec(self) -> Seq<char> {
        match self {
            TranscodeError::ContainerOpen => "could not open container"@,
            TranscodeError::Decode => "could not decode packet"@,
            TranscodeError::Encode => "could not encode frame"@,
            TranscodeError::HeaderWrite => "could not write container header"@,
            TranscodeError::TrailerWrite => "could not write container trailer"@,
            TranscodeError::MetadataRead => "could not read artifact size"@,
            TranscodeError::BudgetInfeasible => "size budget leaves no positive bitrate"@,
            TranscodeError::RetriesExhausted => "could not meet target size in the allowed attempts"@,
            TranscodeError::BadTimestamp => "packet timestamp does not fit the output time base"@,
        }
    }

    /// A human-readable account of the failure.
    pub fn describe(&self) -> (r: &'static str)
        ensures
            r@ == self.describe_spec(),
    {
        match self {
            TranscodeError::ContainerOpen => "could not open container",
            TranscodeError::Decode => "could not decode packet",
            TranscodeError::Encode => "could not encode frame",
            TranscodeError::HeaderWrite => "could not write container header",
            TranscodeError::TrailerWrite => "could not write container trailer",
            TranscodeError::MetadataRead => "could not read artifact size",
            TranscodeError::BudgetInfeasible => "size budget leaves no positive bitrate",
            TranscodeError::RetriesExhausted => "could not meet target size in the allowed attempts",
            TranscodeError::BadTimestamp => "packet timestamp does not fit the output time base",
        }
    }
}

} // verus!
