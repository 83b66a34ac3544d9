//! End-to-end checks of the benchmark harness logic on concrete values.

use rpc_bench::outcome::CallOutcome;
use rpc_bench::recorder::LatencyRecorder;
use rpc_bench::run::{aggregate, BenchError, CallShape, RunConfig};
use rpc_bench::worker::StopCondition;

fn unary_config(concurrency: u32) -> RunConfig {
    RunConfig {
        concurrency,
        payload_size: 1024,
        shape: CallShape::Unary,
        stop: StopCondition::AfterTotalCalls { total: 50 },
    }
}

#[test]
fn percentile_100_is_max_and_0_is_min() {
    let mut rec = LatencyRecorder::new();
    for ns in [700u64, 100, 900, 300, 500] {
        rec.record(ns);
    }
    assert_eq!(rec.percentile_ns(100), 900);
    assert_eq!(rec.percentile_ns(0), 100);
}

#[test]
fn percentiles_and_mean_ignore_recording_order() {
    let orders: [[u64; 6]; 3] = [
        [5, 10, 20, 40, 80, 160],
        [160, 80, 40, 20, 10, 5],
        [40, 5, 160, 10, 80, 20],
    ];
    let mut results = Vec::new();
    for order in orders {
        let mut rec = LatencyRecorder::new();
        for ns in order {
            rec.record(ns);
        }
        results.push((
            rec.mean_ns(),
            rec.percentile_ns(0),
            rec.percentile_ns(50),
            rec.percentile_ns(95),
            rec.percentile_ns(100),
        ));
    }
    assert_eq!(results[0], results[1]);
    assert_eq!(results[0], results[2]);
}

#[test]
fn sorted_samples_sorts_ascending() {
    let mut rec = LatencyRecorder::new();
    for ns in [3u64, 1, 2, 1, 5] {
        rec.record(ns);
    }
    assert_eq!(rec.sorted_samples(), vec![1, 1, 2, 3, 5]);
    assert_eq!(rec.count(), 5);
}

#[test]
fn mean_rounds_down_to_whole_nanoseconds() {
    let mut rec = LatencyRecorder::new();
    rec.record(3);
    rec.record(4);
    // (3 + 4) / 2 rounded down
    assert_eq!(rec.mean_ns(), 3);
}

#[test]
fn merge_keeps_every_sample_once() {
    let mut a = LatencyRecorder::new();
    a.record(10);
    a.record(30);
    let mut b = LatencyRecorder::new();
    b.record(20);
    a.merge(b);
    assert_eq!(a.count(), 3);
    assert_eq!(a.sorted_samples(), vec![10, 20, 30]);
}

#[test]
fn single_sample_has_flat_statistics() {
    let mut rec = LatencyRecorder::new();
    rec.record(42);
    assert_eq!(rec.mean_ns(), 42);
    assert_eq!(rec.percentile_ns(0), 42);
    assert_eq!(rec.percentile_ns(50), 42);
    assert_eq!(rec.percentile_ns(100), 42);
}

#[test]
fn aggregate_of_no_outcomes_is_an_error() {
    let outcomes: Vec<CallOutcome> = Vec::new();
    let r = aggregate(&unary_config(4), &outcomes, 1_000_000);
    assert_eq!(r.unwrap_err(), BenchError::NoCallsCompleted);
}

#[test]
fn aggregate_of_only_failures_is_an_error_not_a_zero_result() {
    let mut outcomes = Vec::new();
    for _ in 0..10 {
        outcomes.push(CallOutcome::new(5_000, false));
    }
    let r = aggregate(&unary_config(4), &outcomes, 1_000_000);
    assert_eq!(r.unwrap_err(), BenchError::NoSuccessfulCalls);
}

#[test]
fn aggregate_counts_failures_in_totals_but_not_in_percentiles() {
    let mut outcomes = Vec::new();
    outcomes.push(CallOutcome::new(100, true));
    outcomes.push(CallOutcome::new(999_999, false));
    outcomes.push(CallOutcome::new(300, true));
    let res = aggregate(&unary_config(2), &outcomes, 1_000_000).unwrap();
    assert_eq!(res.total_calls, 3);
    assert_eq!(res.successful_calls, 2);
    assert_eq!(res.mean_ns, 200);
    assert_eq!(res.p50_ns, 300);
    assert_eq!(res.p95_ns, 300);
    assert_eq!(res.p99_ns, 300);
    // all three completed calls count toward throughput:
    // 3 calls / 1 ms = 3000 calls/s = 3_000_000 milli-calls/s
    assert_eq!(res.rps_milli, 3_000_000);
}

#[test]
fn error_messages_name_the_failure() {
    assert_eq!(
        BenchError::Connection.message(),
        "could not connect to the remote service"
    );
    assert_eq!(BenchError::NoCallsCompleted.message(), "no calls completed");
    assert_eq!(BenchError::NoSuccessfulCalls.message(), "no call succeeded");
}

#[test]
fn config_needs_at_least_one_worker() {
    assert!(!unary_config(0).validate());
    assert!(unary_config(1).validate());
}

#[test]
fn single_worker_unary_scenario() {
    // One worker, 1024-byte payload, 50 unary calls against a remote that
    // always succeeds with near-constant latency: the totals match the
    // budget, the tail is flat, and throughput is the reciprocal of the
    // mean latency.
    let config = unary_config(1);
    let latency_ns: u64 = 200_000; // 0.2 ms per call
    let mut outcomes = Vec::new();
    for _ in 0..50 {
        outcomes.push(CallOutcome::new(latency_ns, true));
    }
    let duration_ns: u64 = latency_ns * 50;
    let res = aggregate(&config, &outcomes, duration_ns).unwrap();
    assert_eq!(res.concurrency, 1);
    assert_eq!(res.total_calls, 50);
    assert_eq!(res.successful_calls, 50);
    assert_eq!(res.p50_ns, res.p99_ns);
    assert_eq!(res.mean_ns, latency_ns);
    // 1 / 0.2 ms = 5000 calls/s = 5_000_000 milli-calls/s
    assert_eq!(res.rps_milli, 5_000_000);
    assert_eq!(res.rps_milli, 1_000_000_000_000 / latency_ns as u128);
}
