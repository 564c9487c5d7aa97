//! What can go wrong in the core. Nothing of it is fatal: the source or the
//! record concerned is given up, and the rest goes on.

use vstd::prelude::*;

verus! {

/// The failures that the core knows.
#[derive(Clone, Copy, Debug, PartialEq, Eq, Structural)]
pub enum Failure {
    /// What a probe looks at is not there. The source is given up; the other
    /// sources go on.
    SourceUnavailable,
    /// A block of the log or a record of a configuration is malformed. It is
    /// skipped; the rest is read.
    ParseError,
    /// Every monitor has ended, so that the event bus is closed. The
    /// consumer stops.
    ChannelClosed,
}

impl Failure {
    /// A few words on the failure.
    pub open spec fn describe_spec(self) -> Seq<char> {
        match self {
            Failure::SourceUnavailable => "the source is not available"@,
            Failure::ParseError => "the record is malformed"@,
            Failure::ChannelClosed => "the event bus is closed"@,
        }
    }

    /// A few words on the failure, for a log.
    pub fn describe(&self) -> (words: &'static str)
        ensures
            words@ == self.describe_spec(),
    {
        match self {
            Failure::SourceUnavailable => "the source is not available",
            Failure::ParseError => "the record is malformed",
            Failure::ChannelClosed => "the event bus is closed",
        }
    }
}

} // verus!
