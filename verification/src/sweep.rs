//! The sweep orchestrator's bookkeeping: the ascending list of concurrency
//! levels to visit and the ordered collection of one result per level.
//!
//! Runs are strictly sequential — a level's run starts only after the
//! previous level's result was recorded — and every level uses fresh
//! client handles, established by the caller for that run alone. A run
//! that fails aborts the whole sweep; no partial or zeroed result is ever
//! recorded in its place.

use vstd::prelude::*;
use crate::run::BenchmarkResult;

verus! {

/// The ascending concurrency levels `start, start + stride, ...`, every
/// one at most `max`.
pub fn concurrency_levels(start: u32, max: u32, stride: u32) -> (levels: Vec<u32>)
    requires
        stride > 0,
    ensures
        forall|i: int| 0 <= i < levels@.len() ==> levels@[i] == start + i * stride,
        forall|i: int| 0 <= i < levels@.len() ==> levels@[i] <= max,
        start > max ==> levels@.len() == 0,
        start <= max ==> levels@.len() > 0 && levels@.last() + stride > max,
    decreases max,
{
    let mut levels: Vec<u32> = Vec::new();
    let mut c: u64 = start as u64;
    proof {
        assert(levels@.len() * (stride as int) == 0) by (nonlinear_arith)
            requires
                levels@.len() == 0,
        ;
    }
    while c <= max as u64
        invariant
            stride > 0,
            c == start as int + levels@.len() * (stride as int),
            forall|i: int| 0 <= i < levels@.len() ==> levels@[i] == start + i * stride,
            forall|i: int| 0 <= i < levels@.len() ==> levels@[i] <= max,
        decreases max as int + stride - c,
    {
        let ghost len0 = levels@.len() as int;
        levels.push(c as u32);
        proof {
            assert(len0 * stride + stride == (len0 + 1) * stride) by (nonlinear_arith);
        }
        c = c + stride as u64;
    }
    proof {
        let len = levels@.len() as int;
        if len > 0 {
            assert(levels@[len - 1] == start + (len - 1) * stride);
            assert((len - 1) * stride >= 0) by (nonlinear_arith)
                requires
                    len >= 1,
                    stride > 0,
            ;
            assert((len - 1) * stride + stride == len * stride) by (nonlinear_arith);
        }
    }
    levels
}

/// A sweep in progress: the levels it will visit, in ascending order, and
/// the results of the levels already run, one per finished level, in the
/// order the levels were run.
pub struct Sweep {
    levels: Vec<u32>,
    results: Vec<BenchmarkResult>,
}

impl Sweep {
    /// The levels this sweep visits.
    pub closed spec fn levels(&self) -> Seq<u32> {
        self.levels@
    }

    /// The results recorded so far, in run order.
    pub closed spec fn results(&self) -> Seq<BenchmarkResult> {
        self.results@
    }

    /// Results never outnumber levels, and the result at position `i` came
    /// from a run at level `i`'s concurrency: levels never overlap or run
    /// out of order.
    pub open spec fn wf(&self) -> bool {
        &&& self.results().len() <= self.levels().len()
        &&& forall|i: int| 0 <= i < self.results().len()
            ==> #[trigger] self.results()[i].concurrency == self.levels()[i]
    }

    /// A sweep that has not run any level yet.
    pub fn new(levels: Vec<u32>) -> (s: Sweep)
        ensures
            s.levels() == levels@,
            s.results() == Seq::<BenchmarkResult>::empty(),
            s.wf(),
    {
        Sweep { levels, results: Vec::new() }
    }

    /// The level whose run comes next, or `None` once every level has a
    /// recorded result.
    pub fn next_level(&self) -> (r: Option<u32>)
        requires
            self.wf(),
        ensures
            self.results().len() < self.levels().len() ==> r == Some(
                self.levels()[self.results().len() as int],
            ),
            self.results().len() >= self.levels().len() ==> r is None,
    {
        let done: usize = self.results.len();
        if done < self.levels.len() {
            Some(self.levels[done])
        } else {
            None
        }
    }

    /// Records the result of the run at the pending level. The caller ran
    /// exactly that level's concurrency, so the result joins the sequence
    /// in level order.
    pub fn record_result(&mut self, result: BenchmarkResult)
        requires
            old(self).wf(),
            old(self).results().len() < old(self).levels().len(),
            result.concurrency == old(self).levels()[old(self).results().len() as int],
        ensures
            final(self).levels() == old(self).levels(),
            final(self).results() == old(self).results().push(result),
            final(self).wf(),
    {
        self.results.push(result);
    }

    /// Whether every level has a recorded result.
    pub fn is_finished(&self) -> (r: bool)
        ensures
            r == (self.results().len() >= self.levels().len()),
    {
        self.results.len() >= self.levels.len()
    }

    /// Hands the recorded results out, one per finished level, in the
    /// order the levels were run.
    pub fn into_results(self) -> (r: Vec<BenchmarkResult>)
        ensures
            r@ == self.results(),
    {
        self.results
    }
}

} // verus!
