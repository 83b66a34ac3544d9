//! The result of one logical remote call.

use vstd::prelude::*;

verus! {

/// What one logical call produced: its measured latency in nanoseconds and
/// whether it succeeded. An outcome is created once per call, never mutated,
/// and handed from the worker that issued the call to the aggregation step.
pub struct CallOutcome {
    /// Elapsed time of the call, from send to last response, in nanoseconds.
    pub latency_ns: u64,
    /// Whether the call completed without a transport, deadline or protocol
    /// error. A failed call still counts toward the total, but its latency
    /// is excluded from the percentile statistics.
    pub success: bool,
}

impl CallOutcome {
    /// Packages one call's measurement. The caller measured `latency_ns`
    /// from the moment the request was sent to the moment the (last)
    /// response arrived or the call failed.
    pub fn new(latency_ns: u64, success: bool) -> (r: CallOutcome)
        ensures
            r.latency_ns == latency_ns,
            r.success == success,
    {
        CallOutcome { latency_ns, success }
    }
}

} // verus!
