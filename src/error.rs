//! Failures of a benchmark run.

use vstd::prelude::*;

verus! {

/// The failures a run can meet. Partial bulk failures are not among them: a
/// loader records those and goes on.
#[derive(Clone, Debug, PartialEq, Eq)]
pub enum BenchError {
    /// Missing or invalid settings; raised before any I/O.
    Config(String),
    /// An engine could not be reached.
    Connectivity(String),
    /// Creating a table, index or mapping failed.
    Schema(String),
    /// An engine answered with a malformed or unexpected payload.
    Protocol(String),
    /// The search engine refused a whole bulk batch with a non-2xx status.
    BulkRejected { status: u16, body: String },
    /// A write to the relational copy stream failed; the stream was abandoned
    /// without being finished.
    AbortedStream { rows_written: usize },
    /// Finishing the relational copy stream failed; nothing was committed.
    CopyNotCommitted,
    /// A query parameter cannot be translated into the engines' native forms.
    Translation(String),
}

} // verus!
