//! What the pipeline has seen and not yet handed on for export.

use crate::dns::{QueryClass, QueryType};
use vstd::prelude::*;

verus! {

/// One thing that the pipeline saw.
#[derive(Debug, Clone, Copy, PartialEq, Eq, Structural)]
pub enum Observation {
    /// A query frame: one more for `queries_total`.
    Query,
    /// A question of a query: one more for the cell of `questions_total`
    /// under the labels of its type and class.
    Question { query_type: QueryType, query_class: QueryClass },
    /// An answer that came `nanos` nanoseconds after its query: a sample for
    /// `query_latency_seconds`.
    QueryLatency { nanos: u64 },
    /// An answer with a timestamp before that of its query. It gives no
    /// sample; it is worth a warning.
    ClockRegression,
    /// A sweep that dropped `count` queries: that many more for
    /// `query_timeouts_total`.
    QueryTimeouts { count: u64 },
}

/// Collects observations, in the order in which they were made, until an
/// exporter takes them.
#[derive(Debug)]
pub struct Metrics {
    pending: Vec<Observation>,
}

impl View for Metrics {
    type V = Seq<Observation>;

    closed spec fn view(&self) -> Seq<Observation> {
        self.pending@
    }
}

impl Metrics {
    pub fn new() -> (metrics: Self)
        ensures
            metrics@ == Seq::<Observation>::empty(),
    {
        Metrics { pending: Vec::new() }
    }

    /// Notes that a query was seen.
    pub fn record_query(&mut self)
        ensures
            final(self)@ == old(self)@.push(Observation::Query),
    {
        self.pending.push(Observation::Query);
    }

    /// Notes a question of the given type and class.
    pub fn record_question(&mut self, query_type: &QueryType, query_class: &QueryClass)
        ensures
            final(self)@ == old(self)@.push(
                Observation::Question { query_type: *query_type, query_class: *query_class },
            ),
    {
        self.pending.push(
            Observation::Question { query_type: *query_type, query_class: *query_class },
        );
    }

    /// Notes the time between a query and its answer, in nanoseconds.
    pub fn observe_query_latency(&mut self, latency: u64)
        ensures
            final(self)@ == old(self)@.push(Observation::QueryLatency { nanos: latency }),
    {
        self.pending.push(Observation::QueryLatency { nanos: latency });
    }

    /// Notes an answer that is older than its query.
    pub fn record_clock_regression(&mut self)
        ensures
            final(self)@ == old(self)@.push(Observation::ClockRegression),
    {
        self.pending.push(Observation::ClockRegression);
    }

    /// Notes that a sweep dropped `count` queries.
    pub fn record_query_timeouts(&mut self, count: u64)
        ensures
            final(self)@ == old(self)@.push(Observation::QueryTimeouts { count }),
    {
        self.pending.push(Observation::QueryTimeouts { count });
    }

    /// Hands out what was collected, oldest first, and starts afresh.
    pub fn take(&mut self) -> (taken: Vec<Observation>)
        ensures
            taken@ == old(self)@,
            final(self)@ == Seq::<Observation>::empty(),
    {
        let mut taken: Vec<Observation> = Vec::new();
        std::mem::swap(&mut self.pending, &mut taken);
        taken
    }
}

} // verus!
