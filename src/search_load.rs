//! Decisions of the search-engine bulk loader: which batch to send next, how
//! to judge each bulk reply, and when to issue the refresh barrier.

use vstd::prelude::*;

use crate::batching::{is_batch_plan, plan_batches, Batch};
use crate::error::BenchError;

verus! {

/// Where a bulk load stands.
#[derive(Clone, Copy, Debug, PartialEq, Eq, Structural)]
pub enum BulkPhase {
    /// Batches remain to be sent, or the refresh barrier is due.
    Sending,
    /// Every batch was sent and the index was refreshed.
    Done,
    /// The load was aborted; `failure` says why.
    Failed,
}

/// What the engine answered to one bulk request.
#[derive(Clone, Debug, PartialEq, Eq)]
pub enum BulkReply {
    /// The request did not reach the engine.
    Unreachable(String),
    /// A 2xx reply whose body could not be read as a bulk response.
    Malformed(String),
    /// An HTTP reply; `errors` is the top-level `errors` flag of the body, if
    /// the body has one.
    Http { status: u16, errors: Option<bool>, body: String },
}

/// How the loader judged a bulk reply.
#[derive(Clone, Debug, PartialEq, Eq)]
pub enum BatchVerdict {
    /// Every document of the batch was indexed.
    Accepted,
    /// The batch went through but some of its documents failed; this is to be
    /// logged as a warning and the load goes on.
    AcceptedWithItemErrors,
    /// The batch failed as a whole; the load is aborted.
    Rejected,
}

/// The next step a driver of the load is to take.
#[derive(Clone, Copy, Debug, PartialEq, Eq, Structural)]
pub enum BulkAction {
    /// Send the documents of this batch as one bulk request.
    Send(Batch),
    /// Make the indexed documents visible to searches.
    Refresh,
    /// Nothing is left to do.
    Finished,
    /// Stop: the load failed.
    Abort,
}

pub open spec fn is_success_status(status: u16) -> bool {
    200 <= status < 300
}

/// The state of a search-engine bulk load.
pub struct BulkLoad {
    plan: Vec<Batch>,
    next: usize,
    phase: BulkPhase,
    partial: Vec<usize>,
    failure: Option<BenchError>,
}

impl BulkLoad {
    /// The batches of the load, in sending order.
    pub closed spec fn plan(&self) -> Seq<Batch> {
        self.plan@
    }

    /// How many batches have been answered with success.
    pub closed spec fn sent(&self) -> nat {
        self.next as nat
    }

    pub closed spec fn phase(&self) -> BulkPhase {
        self.phase
    }

    /// Positions in the plan of the batches that reported item errors.
    pub closed spec fn partial_batches(&self) -> Seq<usize> {
        self.partial@
    }

    pub closed spec fn failure(&self) -> Option<BenchError> {
        self.failure
    }

    pub open spec fn well_formed(&self) -> bool {
        &&& self.sent() <= self.plan().len()
        &&& (self.phase() == BulkPhase::Failed) == (self.failure() is Some)
        &&& self.phase() == BulkPhase::Done ==> self.sent() == self.plan().len()
        &&& forall|k: int| 0 <= k < self.plan().len()
            ==> (#[trigger] self.plan()[k]).start < self.plan()[k].end
    }

    /// The step that the state calls for.
    pub open spec fn action(&self) -> BulkAction {
        match self.phase() {
            BulkPhase::Sending => if self.sent() < self.plan().len() {
                BulkAction::Send(self.plan()[self.sent() as int])
            } else {
                BulkAction::Refresh
            },
            BulkPhase::Done => BulkAction::Finished,
            BulkPhase::Failed => BulkAction::Abort,
        }
    }

    /// A load of `total` documents in batches of `batch_size`.
    pub fn new(total: usize, batch_size: usize) -> (r: BulkLoad)
        requires
            batch_size > 0,
        ensures
            r.well_formed(),
            is_batch_plan(r.plan(), total as nat, batch_size as nat),
            r.sent() == 0,
            r.phase() == BulkPhase::Sending,
            r.partial_batches() == Seq::<usize>::empty(),
    {
        let plan = plan_batches(total, batch_size);
        BulkLoad {
            plan,
            next: 0,
            phase: BulkPhase::Sending,
            partial: Vec::new(),
            failure: None,
        }
    }

    /// The step to take now. A batch handed out is never empty; once the
    /// last batch is through, the refresh barrier comes before the end.
    pub fn next_action(&self) -> (a: BulkAction)
        requires
            self.well_formed(),
        ensures
            a == self.action(),
            a matches BulkAction::Send(b) ==> b.start < b.end,
    {
        match self.phase {
            BulkPhase::Sending => if self.next < self.plan.len() {
                BulkAction::Send(self.plan[self.next])
            } else {
                BulkAction::Refresh
            },
            BulkPhase::Done => BulkAction::Finished,
            BulkPhase::Failed => BulkAction::Abort,
        }
    }

    /// Judges the reply to the batch last handed out. A 2xx reply moves on to
    /// the next batch, recording the batch when its body reports item errors;
    /// any other reply aborts the load.
    pub fn record_reply(&mut self, reply: BulkReply) -> (v: BatchVerdict)
        requires
            old(self).well_formed(),
            old(self).phase() == BulkPhase::Sending,
            old(self).sent() < old(self).plan().len(),
        ensures
            final(self).well_formed(),
            final(self).plan() == old(self).plan(),
            match reply {
                BulkReply::Http { status, errors, body } => if is_success_status(status) {
                    &&& final(self).phase() == BulkPhase::Sending
                    &&& final(self).sent() == old(self).sent() + 1
                    &&& final(self).action() != BulkAction::Abort
                    &&& if errors == Some(true) {
                        &&& v == BatchVerdict::AcceptedWithItemErrors
                        &&& final(self).partial_batches() == old(self).partial_batches().push(
                            old(self).sent() as usize,
                        )
                    } else {
                        &&& v == BatchVerdict::Accepted
                        &&& final(self).partial_batches() == old(self).partial_batches()
                    }
                } else {
                    &&& v == BatchVerdict::Rejected
                    &&& final(self).phase() == BulkPhase::Failed
                    &&& final(self).failure() == Some(BenchError::BulkRejected { status, body })
                    &&& final(self).sent() == old(self).sent()
                },
                BulkReply::Unreachable(msg) => {
                    &&& v == BatchVerdict::Rejected
                    &&& final(self).phase() == BulkPhase::Failed
                    &&& final(self).failure() == Some(BenchError::Connectivity(msg))
                    &&& final(self).sent() == old(self).sent()
                },
                BulkReply::Malformed(msg) => {
                    &&& v == BatchVerdict::Rejected
                    &&& final(self).phase() == BulkPhase::Failed
                    &&& final(self).failure() == Some(BenchError::Protocol(msg))
                    &&& final(self).sent() == old(self).sent()
                },
            },
    {
        match reply {
            BulkReply::Http { status, errors, body } => {
                if 200 <= status && status < 300 {
                    let index = self.next;
                    assert(index < self.plan.len());
                    self.next = index + 1;
                    match errors {
                        Some(true) => {
                            self.partial.push(index);
                            BatchVerdict::AcceptedWithItemErrors
                        },
                        _ => BatchVerdict::Accepted,
                    }
                } else {
                    self.phase = BulkPhase::Failed;
                    self.failure = Some(BenchError::BulkRejected { status, body });
                    BatchVerdict::Rejected
                }
            },
            BulkReply::Unreachable(msg) => {
                self.phase = BulkPhase::Failed;
                self.failure = Some(BenchError::Connectivity(msg));
                BatchVerdict::Rejected
            },
            BulkReply::Malformed(msg) => {
                self.phase = BulkPhase::Failed;
                self.failure = Some(BenchError::Protocol(msg));
                BatchVerdict::Rejected
            },
        }
    }

    /// Records the outcome of the refresh barrier: `None` when the engine
    /// answered, the transport's message when it could not be reached.
    pub fn record_refresh(&mut self, unreachable: Option<String>)
        requires
            old(self).well_formed(),
            old(self).action() == BulkAction::Refresh,
        ensures
            final(self).well_formed(),
            final(self).plan() == old(self).plan(),
            final(self).sent() == old(self).sent(),
            final(self).partial_batches() == old(self).partial_batches(),
            match unreachable {
                None => final(self).phase() == BulkPhase::Done,
                Some(msg) => {
                    &&& final(self).phase() == BulkPhase::Failed
                    &&& final(self).failure() == Some(BenchError::Connectivity(msg))
                },
            },
    {
        match unreachable {
            None => {
                self.phase = BulkPhase::Done;
            },
            Some(msg) => {
                self.phase = BulkPhase::Failed;
                self.failure = Some(BenchError::Connectivity(msg));
            },
        }
    }

    /// Why the load failed, if it did.
    pub fn failure_reason(&self) -> (r: &Option<BenchError>)
        ensures
            *r == self.failure(),
    {
        &self.failure
    }

    /// Positions in the plan of the batches that reported item errors.
    pub fn partial_failures(&self) -> (r: &Vec<usize>)
        ensures
            r@ == self.partial_batches(),
    {
        &self.partial
    }
}

} // verus!
