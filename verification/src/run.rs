//! The run controller's aggregation step: it turns the call outcomes
//! drained from the worker pool into one immutable benchmark result, or
//! into an explicit error when the run produced nothing meaningful.

use vstd::prelude::*;
use crate::outcome::CallOutcome;
use crate::recorder::{mean_of, percentile_of, LatencyRecorder};
use crate::worker::StopCondition;

verus! {

/// Which call shape a run drives.
#[derive(Clone, Copy, PartialEq, Eq, Structural)]
pub enum CallShape {
    /// One request, exactly one response.
    Unary,
    /// One request, a server-side sequence of responses read to its
    /// end-of-stream marker.
    ServerStreaming,
}

/// Configuration of one benchmark run.
pub struct RunConfig {
    /// How many independent concurrent workers to drive, each with its own
    /// client handle.
    pub concurrency: u32,
    /// Size of the filler payload carried in each request, in bytes.
    pub payload_size: usize,
    /// Which call shape every call of the run uses.
    pub shape: CallShape,
    /// When the run stops issuing new calls.
    pub stop: StopCondition,
}

impl RunConfig {
    /// A run needs at least one worker to make progress.
    pub open spec fn valid(&self) -> bool {
        self.concurrency > 0
    }

    /// Checks the configuration before a run starts.
    pub fn validate(&self) -> (r: bool)
        ensures
            r == self.valid(),
    {
        self.concurrency > 0
    }
}

/// Why a run or a whole sweep failed. An individual failed call is not an
/// error: it becomes a failed outcome and the run continues.
#[derive(Clone, Copy, Debug, PartialEq, Eq, Structural)]
pub enum BenchError {
    /// No client handle could be established to the remote address; fatal
    /// for the run, surfaced before any worker starts.
    Connection,
    /// The run aggregated zero call outcomes, so there is nothing to
    /// report.
    NoCallsCompleted,
    /// Calls completed but every one of them failed; latency statistics
    /// over zero successes would be meaningless, so the run reports this
    /// instead of a zeroed-out result.
    NoSuccessfulCalls,
}

impl BenchError {
    /// A human-readable description of the failure.
    pub fn message(&self) -> (m: String)
        ensures
            self is Connection ==> m@ == "could not connect to the remote service"@,
            self is NoCallsCompleted ==> m@ == "no calls completed"@,
            self is NoSuccessfulCalls ==> m@ == "no call succeeded"@,
    {
        match self {
            BenchError::Connection => "could not connect to the remote service".to_owned(),
            BenchError::NoCallsCompleted => "no calls completed".to_owned(),
            BenchError::NoSuccessfulCalls => "no call succeeded".to_owned(),
        }
    }
}

/// The latencies of the successful calls, in the order the outcomes were
/// aggregated. Failed calls count toward the total but are excluded from
/// every latency statistic.
pub open spec fn success_latencies(outcomes: Seq<CallOutcome>) -> Seq<u64>
    decreases outcomes.len(),
{
    if outcomes.len() == 0 {
        Seq::empty()
    } else {
        let rest = success_latencies(outcomes.drop_last());
        if outcomes.last().success {
            rest.push(outcomes.last().latency_ns)
        } else {
            rest
        }
    }
}

/// Aggregated outcome of one benchmark run. Created once, immutable.
#[derive(Clone, Copy, Debug)]
pub struct BenchmarkResult {
    /// How many workers the run drove.
    pub concurrency: u32,
    /// How many call outcomes were aggregated — every issued call that
    /// finished, successful or failed; none is dropped.
    pub total_calls: u64,
    /// How many of those calls succeeded.
    pub successful_calls: u64,
    /// Wall-clock length of the run, in nanoseconds, including the drain.
    pub duration_ns: u64,
    /// Throughput in calls per second, scaled by 1000 (milli-calls per
    /// second). All completed calls count toward the numerator, failed
    /// ones included, matching `total_calls`.
    pub rps_milli: u128,
    /// Mean latency of the successful calls, in nanoseconds.
    pub mean_ns: u64,
    /// Median latency of the successful calls, in nanoseconds.
    pub p50_ns: u64,
    /// 95th-percentile latency of the successful calls, in nanoseconds.
    pub p95_ns: u64,
    /// 99th-percentile latency of the successful calls, in nanoseconds.
    pub p99_ns: u64,
}

/// Aggregates the outcomes drained from the worker pool into a benchmark
/// result. Fails explicitly — never with a zeroed result — when the run
/// completed no call at all, or when every completed call failed.
pub fn aggregate(
    config: &RunConfig,
    outcomes: &Vec<CallOutcome>,
    duration_ns: u64,
) -> (r: Result<BenchmarkResult, BenchError>)
    requires
        duration_ns > 0,
    ensures
        r is Ok <==> success_latencies(outcomes@).len() > 0,
        r matches Err(e) ==> (e is NoCallsCompleted <==> outcomes@.len() == 0),
        r matches Err(e) ==> !(e is Connection),
        r matches Ok(res) ==> {
            &&& res.concurrency == config.concurrency
            &&& res.total_calls == outcomes@.len()
            &&& res.successful_calls == success_latencies(outcomes@).len()
            &&& res.duration_ns == duration_ns
            &&& res.rps_milli == outcomes@.len() as int * 1_000_000_000_000 / duration_ns as int
            &&& res.mean_ns == mean_of(success_latencies(outcomes@))
            &&& res.p50_ns == percentile_of(success_latencies(outcomes@), 50)
            &&& res.p95_ns == percentile_of(success_latencies(outcomes@), 95)
            &&& res.p99_ns == percentile_of(success_latencies(outcomes@), 99)
        },
{
    let n: usize = outcomes.len();
    if n == 0 {
        return Err(BenchError::NoCallsCompleted);
    }
    let mut rec = LatencyRecorder::new();
    let mut i: usize = 0;
    proof {
        assert(outcomes@.take(0) =~= Seq::<CallOutcome>::empty());
    }
    while i < n
        invariant
            i <= n,
            n == outcomes@.len(),
            rec@ == success_latencies(outcomes@.take(i as int)),
        decreases n - i,
    {
        proof {
            lemma_success_latencies_step(outcomes@, i as int);
        }
        if outcomes[i].success {
            rec.record(outcomes[i].latency_ns);
        }
        i = i + 1;
    }
    proof {
        assert(outcomes@.take(n as int) =~= outcomes@);
    }
    if rec.count() == 0 {
        return Err(BenchError::NoSuccessfulCalls);
    }
    let mean_ns: u64 = rec.mean_ns();
    let p50_ns: u64 = rec.percentile_ns(50);
    let p95_ns: u64 = rec.percentile_ns(95);
    let p99_ns: u64 = rec.percentile_ns(99);
    proof {
        assert((n as u128) * 1_000_000_000_000u128 <= u128::MAX) by (nonlinear_arith)
            requires
                n <= 0xffff_ffff_ffff_ffffu64,
        ;
    }
    let scaled: u128 = (n as u128) * 1_000_000_000_000u128;
    let rps_milli: u128 = scaled / (duration_ns as u128);
    Ok(BenchmarkResult {
        concurrency: config.concurrency,
        total_calls: n as u64,
        successful_calls: rec.count() as u64,
        duration_ns,
        rps_milli,
        mean_ns,
        p50_ns,
        p95_ns,
        p99_ns,
    })
}

/// Aggregating one more outcome extends the successful latencies by that
/// outcome's latency exactly when it succeeded.
proof fn lemma_success_latencies_step(outcomes: Seq<CallOutcome>, i: int)
    requires
        0 <= i < outcomes.len(),
    ensures
        success_latencies(outcomes.take(i + 1)) == if outcomes[i].success {
            success_latencies(outcomes.take(i)).push(outcomes[i].latency_ns)
        } else {
            success_latencies(outcomes.take(i))
        },
{
    let t = outcomes.take(i + 1);
    assert(t.drop_last() =~= outcomes.take(i));
    assert(t.last() == outcomes[i]);
}

/// A run in which every call failed ends in an error, never in a result
/// that quietly reports zero throughput: success is owed exactly when at
/// least one outcome succeeded.
pub proof fn lemma_all_failed_has_no_latencies(outcomes: Seq<CallOutcome>)
    requires
        forall|i: int| 0 <= i < outcomes.len() ==> !outcomes[i].success,
    ensures
        success_latencies(outcomes).len() == 0,
    decreases outcomes.len(),
{
    if outcomes.len() > 0 {
        lemma_all_failed_has_no_latencies(outcomes.drop_last());
    }
}

} // verus!
