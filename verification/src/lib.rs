//! A load-generating benchmark harness for a small remote-procedure-call
//! service, together with the reply logic of that service.
//!
//! The harness drives many concurrent logical clients against a remote
//! endpoint for a fixed wall-clock duration or a fixed total call count,
//! records per-call latencies, and aggregates them into throughput and
//! tail-latency statistics. All bookkeeping and statistics here are
//! verified; the transport and the async runtime live outside this crate
//! and hand plain values in and out.

pub mod greeter;
pub mod outcome;
pub mod recorder;
pub mod run;
pub mod sweep;
pub mod worker;
