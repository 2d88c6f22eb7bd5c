//! Why a storage operation failed. Errors are reported to the caller
//! and otherwise swallowed: the pipeline never retries and never
//! escalates a failure to the producer.

use vstd::prelude::*;

verus! {

/// The failure taxonomy of the pipeline's storage operations.
#[derive(Clone, Copy, Debug, PartialEq, Eq, Structural)]
pub enum SinkError {
    /// The destination cannot be created or opened.
    Open,
    /// The destination's existing content cannot be read.
    Read,
    /// The destination's existing content does not parse.
    Deserialize,
    /// The record's bytes cannot be written.
    Write,
    /// The destination cannot be cut to the new length.
    Truncate,
    /// Buffered bytes cannot be pushed to durable storage.
    Flush,
}

impl SinkError {
    /// A short description for the caller's log line.
    pub fn describe(&self) -> &'static str {
        match self {
            SinkError::Open => "cannot open the destination",
            SinkError::Read => "cannot read the destination",
            SinkError::Deserialize => "the destination's content does not parse",
            SinkError::Write => "cannot write the record",
            SinkError::Truncate => "cannot truncate the destination",
            SinkError::Flush => "cannot flush the destination",
        }
    }
}

} // verus!
