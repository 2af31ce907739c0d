use vstd::prelude::*;

verus! {

/// One named counter reported by a sink.
pub struct Metric {
    pub name: String,
    pub value: i64,
}

/// The metrics of one sink, in the order they were collected.
pub struct GenericSinkMetrics {
    pub metrics: Vec<Metric>,
}

impl GenericSinkMetrics {
    pub fn new(metrics: Vec<Metric>) -> (r: Self)
        ensures
            r.metrics == metrics,
    {
        GenericSinkMetrics { metrics }
    }
}

} // verus!
