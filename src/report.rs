//! Aggregation of per-query measurements for one engine.

use vstd::prelude::*;

verus! {

/// One measured query.
#[derive(Clone, Debug, PartialEq, Eq)]
pub struct LatencyEntry {
    pub description: String,
    pub row_count: u64,
    pub elapsed_nanos: u64,
}

/// What running one query on an engine gave.
#[derive(Clone, Debug, PartialEq, Eq)]
pub enum QueryOutcome {
    /// The query ran: rows or hits returned, and the time from issue to the
    /// full result.
    Measured { rows: u64, elapsed_nanos: u64 },
    /// The query failed; it is logged, skipped and left out of the totals.
    Failed(String),
}

/// What the search engine answered to one search call.
#[derive(Clone, Debug, PartialEq, Eq)]
pub enum SearchReply {
    /// The call did not reach the engine.
    Unreachable(String),
    /// A 2xx reply whose body could not be read.
    Malformed(String),
    /// An HTTP reply; `hits` is the length of the hit array of a 2xx body,
    /// `None` when the body has no hit array; `body` is kept for diagnosis.
    Http { status: u16, hits: Option<u64>, body: String },
}

/// Judges a search reply: only a 2xx reply is a measurement, and a body
/// without a hit array counts as no hits; anything else is a failed query.
pub fn search_outcome(reply: SearchReply, elapsed_nanos: u64) -> (r: QueryOutcome)
    ensures
        match reply {
            SearchReply::Http { status, hits, body } => if 200 <= status < 300 {
                r == QueryOutcome::Measured {
                    rows: match hits {
                        Some(n) => n,
                        None => 0,
                    },
                    elapsed_nanos,
                }
            } else {
                r == QueryOutcome::Failed(body)
            },
            SearchReply::Unreachable(m) => r == QueryOutcome::Failed(m),
            SearchReply::Malformed(m) => r == QueryOutcome::Failed(m),
        },
{
    match reply {
        SearchReply::Http { status, hits, body } => {
            if 200 <= status && status < 300 {
                let rows = match hits {
                    Some(n) => n,
                    None => 0,
                };
                QueryOutcome::Measured { rows, elapsed_nanos }
            } else {
                QueryOutcome::Failed(body)
            }
        },
        SearchReply::Unreachable(m) => QueryOutcome::Failed(m),
        SearchReply::Malformed(m) => QueryOutcome::Failed(m),
    }
}

pub open spec fn sum_elapsed(entries: Seq<LatencyEntry>) -> nat
    decreases entries.len(),
{
    if entries.len() == 0 {
        0
    } else {
        sum_elapsed(entries.drop_last()) + entries.last().elapsed_nanos as nat
    }
}

pub open spec fn sum_rows(entries: Seq<LatencyEntry>) -> nat
    decreases entries.len(),
{
    if entries.len() == 0 {
        0
    } else {
        sum_rows(entries.drop_last()) + entries.last().row_count as nat
    }
}

/// Average latency over the measured queries; zero when none was measured.
pub open spec fn average_of(entries: Seq<LatencyEntry>) -> nat {
    if entries.len() == 0 {
        0
    } else {
        sum_elapsed(entries) / entries.len()
    }
}

/// The measurements of one engine over the battery.
pub struct EngineReport {
    entries: Vec<LatencyEntry>,
    skipped: Vec<String>,
    total_elapsed: u64,
    total_rows: u64,
}

impl EngineReport {
    /// The measured queries, in the order they ran.
    pub closed spec fn entries(&self) -> Seq<LatencyEntry> {
        self.entries@
    }

    /// Descriptions of the queries that failed, in the order they ran.
    pub closed spec fn skipped(&self) -> Seq<String> {
        self.skipped@
    }

    pub closed spec fn well_formed(&self) -> bool {
        &&& self.total_elapsed == sum_elapsed(self.entries@)
        &&& self.total_rows == sum_rows(self.entries@)
    }

    /// A report with nothing recorded.
    pub fn new() -> (r: EngineReport)
        ensures
            r.well_formed(),
            r.entries() == Seq::<LatencyEntry>::empty(),
            r.skipped() == Seq::<String>::empty(),
    {
        EngineReport { entries: Vec::new(), skipped: Vec::new(), total_elapsed: 0, total_rows: 0 }
    }

    /// Whether a measurement can be recorded without the totals leaving `u64`.
    pub fn has_room_for(&self, rows: u64, elapsed_nanos: u64) -> (r: bool)
        requires
            self.well_formed(),
        ensures
            r == (sum_elapsed(self.entries()) + elapsed_nanos <= u64::MAX && sum_rows(
                self.entries(),
            ) + rows <= u64::MAX),
    {
        elapsed_nanos <= u64::MAX - self.total_elapsed && rows <= u64::MAX - self.total_rows
    }

    /// Records the outcome of one query: a measurement is appended, a failure
    /// is set aside and counts toward no total.
    pub fn record(&mut self, description: String, outcome: QueryOutcome)
        requires
            old(self).well_formed(),
            outcome matches QueryOutcome::Measured { rows, elapsed_nanos } ==> sum_elapsed(
                old(self).entries(),
            ) + elapsed_nanos <= u64::MAX && sum_rows(old(self).entries()) + rows <= u64::MAX,
        ensures
            final(self).well_formed(),
            match outcome {
                QueryOutcome::Measured { rows, elapsed_nanos } => {
                    &&& final(self).entries() == old(self).entries().push(
                        LatencyEntry { description, row_count: rows, elapsed_nanos },
                    )
                    &&& final(self).skipped() == old(self).skipped()
                },
                QueryOutcome::Failed(_) => {
                    &&& final(self).entries() == old(self).entries()
                    &&& final(self).skipped() == old(self).skipped().push(description)
                },
            },
    {
        match outcome {
            QueryOutcome::Measured { rows, elapsed_nanos } => {
                let entry = LatencyEntry { description, row_count: rows, elapsed_nanos };
                self.entries.push(entry);
                proof {
                    assert(self.entries@.drop_last() =~= old(self).entries@);
                }
                self.total_elapsed = self.total_elapsed + elapsed_nanos;
                self.total_rows = self.total_rows + rows;
            },
            QueryOutcome::Failed(_) => {
                self.skipped.push(description);
            },
        }
    }

    /// Sum of the rows returned by the measured queries.
    pub fn total_rows(&self) -> (r: u64)
        requires
            self.well_formed(),
        ensures
            r == sum_rows(self.entries()),
    {
        self.total_rows
    }

    /// Sum of the latencies of the measured queries, in nanoseconds.
    pub fn total_elapsed_nanos(&self) -> (r: u64)
        requires
            self.well_formed(),
        ensures
            r == sum_elapsed(self.entries()),
    {
        self.total_elapsed
    }

    /// Number of measured queries.
    pub fn measured_count(&self) -> (r: usize)
        ensures
            r == self.entries().len(),
    {
        self.entries.len()
    }

    /// Average latency of the measured queries in nanoseconds, rounded down;
    /// failed queries count in neither the sum nor the divisor.
    pub fn average_latency_nanos(&self) -> (r: u64)
        requires
            self.well_formed(),
        ensures
            r == average_of(self.entries()),
    {
        let n = self.entries.len();
        if n == 0 {
            0
        } else {
            self.total_elapsed / (n as u64)
        }
    }

    /// The measured queries, in the order they ran.
    pub fn measurements(&self) -> (r: &Vec<LatencyEntry>)
        ensures
            r@ == self.entries(),
    {
        &self.entries
    }

    /// Descriptions of the queries that failed.
    pub fn skipped_queries(&self) -> (r: &Vec<String>)
        ensures
            r@ == self.skipped(),
    {
        &self.skipped
    }
}

} // verus!
