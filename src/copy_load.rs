//! Decisions of the relational bulk-copy loader: one row per document, in
//! corpus order, on a single stream that is finished only after the last row.

use vstd::prelude::*;

use crate::error::BenchError;

verus! {

/// Where a copy stream stands.
#[derive(Clone, Copy, Debug, PartialEq, Eq, Structural)]
pub enum CopyPhase {
    /// Rows remain to be written, or the stream is due to be finished.
    Writing,
    /// The stream was finished; the engine committed every row.
    Committed,
    /// A write failed; the stream was abandoned without being finished.
    Aborted,
    /// Finishing the stream failed; the engine committed nothing.
    NotCommitted,
}

/// The next step a driver of the copy is to take.
#[derive(Clone, Copy, Debug, PartialEq, Eq, Structural)]
pub enum CopyAction {
    /// Write the document at this corpus position as one row.
    WriteRow(usize),
    /// Finish the stream, which commits every row written.
    Finish,
    /// Nothing is left to do.
    Finished,
    /// Stop: the copy failed.
    Abort,
}

/// The state of a relational bulk copy of `total` documents.
pub struct CopyLoad {
    total: usize,
    written: usize,
    phase: CopyPhase,
}

impl CopyLoad {
    /// Number of documents in the corpus.
    pub closed spec fn total(&self) -> nat {
        self.total as nat
    }

    /// Number of rows written to the stream so far: always the first rows of
    /// the corpus, in order.
    pub closed spec fn written(&self) -> nat {
        self.written as nat
    }

    pub closed spec fn phase(&self) -> CopyPhase {
        self.phase
    }

    pub open spec fn well_formed(&self) -> bool {
        &&& self.written() <= self.total()
        &&& self.phase() == CopyPhase::Committed ==> self.written() == self.total()
    }

    /// The step that the state calls for.
    pub open spec fn action(&self) -> CopyAction {
        match self.phase() {
            CopyPhase::Writing => if self.written() < self.total() {
                CopyAction::WriteRow(self.written() as usize)
            } else {
                CopyAction::Finish
            },
            CopyPhase::Committed => CopyAction::Finished,
            CopyPhase::Aborted => CopyAction::Abort,
            CopyPhase::NotCommitted => CopyAction::Abort,
        }
    }

    /// The error that a failed copy surfaces.
    pub open spec fn failure(&self) -> Option<BenchError> {
        match self.phase() {
            CopyPhase::Aborted => Some(
                BenchError::AbortedStream { rows_written: self.written() as usize },
            ),
            CopyPhase::NotCommitted => Some(BenchError::CopyNotCommitted),
            _ => None,
        }
    }

    /// A copy of `total` documents with nothing written yet.
    pub fn new(total: usize) -> (r: CopyLoad)
        ensures
            r.well_formed(),
            r.total() == total,
            r.written() == 0,
            r.phase() == CopyPhase::Writing,
    {
        CopyLoad { total, written: 0, phase: CopyPhase::Writing }
    }

    /// The step to take now.
    pub fn next_action(&self) -> (a: CopyAction)
        requires
            self.well_formed(),
        ensures
            a == self.action(),
    {
        match self.phase {
            CopyPhase::Writing => if self.written < self.total {
                CopyAction::WriteRow(self.written)
            } else {
                CopyAction::Finish
            },
            CopyPhase::Committed => CopyAction::Finished,
            CopyPhase::Aborted => CopyAction::Abort,
            CopyPhase::NotCommitted => CopyAction::Abort,
        }
    }

    /// Records whether the row last handed out was written. A failed write
    /// abandons the stream for good.
    pub fn record_write(&mut self, ok: bool)
        requires
            old(self).well_formed(),
            old(self).action() matches CopyAction::WriteRow(_),
        ensures
            final(self).well_formed(),
            final(self).total() == old(self).total(),
            ok ==> final(self).phase() == CopyPhase::Writing,
            ok ==> final(self).written() == old(self).written() + 1,
            !ok ==> final(self).phase() == CopyPhase::Aborted,
            !ok ==> final(self).written() == old(self).written(),
    {
        if ok {
            self.written = self.written + 1;
        } else {
            self.phase = CopyPhase::Aborted;
        }
    }

    /// Records whether finishing the stream succeeded.
    pub fn record_finish(&mut self, ok: bool)
        requires
            old(self).well_formed(),
            old(self).action() == CopyAction::Finish,
        ensures
            final(self).well_formed(),
            final(self).total() == old(self).total(),
            final(self).written() == old(self).written(),
            ok ==> final(self).phase() == CopyPhase::Committed,
            !ok ==> final(self).phase() == CopyPhase::NotCommitted,
    {
        if ok {
            self.phase = CopyPhase::Committed;
        } else {
            self.phase = CopyPhase::NotCommitted;
        }
    }

    /// Why the copy failed, if it did.
    pub fn failure_reason(&self) -> (r: Option<BenchError>)
        ensures
            r == self.failure(),
    {
        match self.phase {
            CopyPhase::Aborted => Some(BenchError::AbortedStream { rows_written: self.written }),
            CopyPhase::NotCommitted => Some(BenchError::CopyNotCommitted),
            _ => None,
        }
    }

    /// Number of rows written so far.
    pub fn rows_written(&self) -> (r: usize)
        ensures
            r == self.written(),
    {
        self.written
    }
}

/// A write that fails mid-corpus abandons the stream: from then on the copy
/// only ever calls for an abort, never for finishing, and it surfaces an
/// aborted-stream error that counts the rows written before the failure.
pub proof fn lemma_failed_write_never_finishes(before: CopyLoad, after: CopyLoad)
    requires
        before.well_formed(),
        before.action() matches CopyAction::WriteRow(_),
        after.well_formed(),
        after.phase() == CopyPhase::Aborted,
        after.written() == before.written(),
    ensures
        after.action() == CopyAction::Abort,
        after.action() != CopyAction::Finish,
        after.failure() == Some(BenchError::AbortedStream { rows_written: before.written() as usize }),
{
}

/// A committed copy wrote every document of the corpus as exactly one row:
/// the rows handed out were positions `0, 1, ...` in turn, and finishing is
/// only called for once all of them are written.
pub proof fn lemma_finish_follows_every_row(s: CopyLoad)
    requires
        s.well_formed(),
        s.action() == CopyAction::Finish || s.phase() == CopyPhase::Committed,
    ensures
        s.written() == s.total(),
{
}

} // verus!
