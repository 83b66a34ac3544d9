//! Checks of the worker-pool bookkeeping, the stop signal, the sweep
//! orchestration and the greeter replies on concrete values.

use rpc_bench::greeter::MyGreeter;
use rpc_bench::run::{BenchmarkResult, CallShape, RunConfig};
use rpc_bench::sweep::{concurrency_levels, Sweep};
use rpc_bench::worker::{worker_share, StopCondition, StopSignal, WorkerState};

#[test]
fn thousand_calls_over_ten_workers_is_hundred_each() {
    let mut sum: u64 = 0;
    for idx in 0..10 {
        let share = worker_share(1000, 10, idx);
        assert_eq!(share, 100);
        sum += share;
    }
    assert_eq!(sum, 1000);
}

#[test]
fn remainder_goes_to_worker_zero_and_nothing_is_lost() {
    // 17 calls over 5 workers: worker 0 gets 3 + 2, the rest get 3.
    assert_eq!(worker_share(17, 5, 0), 5);
    for idx in 1..5 {
        assert_eq!(worker_share(17, 5, idx), 3);
    }
    let total: u64 = (0..5).map(|idx| worker_share(17, 5, idx)).sum();
    assert_eq!(total, 17);
}

#[test]
fn budgeted_worker_issues_exactly_its_share() {
    let signal = StopSignal::new();
    let mut worker = WorkerState::start(Some(3));
    let mut issued = 0;
    while worker.may_issue(&signal) {
        worker.on_call_finished();
        issued += 1;
    }
    assert_eq!(issued, 3);
    assert!(!worker.may_issue(&signal));
}

#[test]
fn stop_signal_ends_issuing_and_is_idempotent() {
    let mut signal = StopSignal::new();
    let mut worker = WorkerState::start(None);
    assert!(worker.may_issue(&signal));
    worker.on_call_finished();
    signal.stop();
    assert!(!worker.may_issue(&signal));
    signal.stop(); // firing again changes nothing
    assert!(signal.is_stopped());
    assert!(!worker.may_issue(&signal));
}

#[test]
fn levels_step_from_start_to_max() {
    let levels = concurrency_levels(10, 800, 10);
    assert_eq!(levels.len(), 80);
    assert_eq!(levels[0], 10);
    assert_eq!(levels[1], 20);
    assert_eq!(levels[79], 800);
}

#[test]
fn no_levels_when_start_exceeds_max() {
    assert!(concurrency_levels(100, 50, 10).is_empty());
    assert_eq!(concurrency_levels(7, 7, 3), vec![7]);
}

fn result_at(concurrency: u32) -> BenchmarkResult {
    BenchmarkResult {
        concurrency,
        total_calls: 100,
        successful_calls: 100,
        duration_ns: 1_000_000_000,
        rps_milli: 100_000,
        mean_ns: 10_000_000,
        p50_ns: 10_000_000,
        p95_ns: 10_000_000,
        p99_ns: 10_000_000,
    }
}

#[test]
fn sweep_visits_levels_in_order_and_collects_one_result_each() {
    let levels = concurrency_levels(2, 6, 2);
    let mut sweep = Sweep::new(levels);
    let mut visited = Vec::new();
    while let Some(level) = sweep.next_level() {
        visited.push(level);
        sweep.record_result(result_at(level));
    }
    assert!(sweep.is_finished());
    assert_eq!(visited, vec![2, 4, 6]);
    let results = sweep.into_results();
    assert_eq!(results.len(), 3);
    assert_eq!(results[0].concurrency, 2);
    assert_eq!(results[1].concurrency, 4);
    assert_eq!(results[2].concurrency, 6);
}

#[test]
fn unary_reply_greets_the_caller() {
    let greeter = MyGreeter::new();
    assert_eq!(greeter.say_hello("Tonic"), "Hello Tonic!");
    assert_eq!(greeter.say_hello(""), "Hello !");
}

#[test]
fn stream_reply_is_exactly_three_numbered_messages() {
    let greeter = MyGreeter::new();
    let msgs = greeter.say_hello_stream("Tonic");
    assert_eq!(msgs.len(), 3);
    assert_eq!(msgs[0], "Hello, Tonic! (1/3)");
    assert_eq!(msgs[1], "Hello, Tonic! (2/3)");
    assert_eq!(msgs[2], "Hello, Tonic! (3/3)");
}

#[test]
fn run_config_carries_its_shape_and_stop_condition() {
    let config = RunConfig {
        concurrency: 8,
        payload_size: 1024,
        shape: CallShape::ServerStreaming,
        stop: StopCondition::AfterDuration { millis: 2000 },
    };
    assert!(config.validate());
    assert!(config.shape == CallShape::ServerStreaming);
    match config.stop {
        StopCondition::AfterDuration { millis } => assert_eq!(millis, 2000),
        StopCondition::AfterTotalCalls { .. } => panic!("wrong stop condition"),
    }
}
