//! Worker-pool bookkeeping: the broadcast stop signal, the per-worker call
//! budget under a count-based stop, and the soft-stop issuing rule.

use vstd::prelude::*;

verus! {

/// When a benchmark run stops issuing new calls.
#[derive(Clone, Copy)]
pub enum StopCondition {
    /// Stop once this much wall-clock time has elapsed, in milliseconds.
    /// A timer fires the stop signal; calls already in flight complete and
    /// are still recorded, but no new call starts afterwards.
    AfterDuration { millis: u64 },
    /// Stop once this many calls, summed over all workers, have been
    /// issued. The budget is split deterministically across the workers.
    AfterTotalCalls { total: u64 },
}

/// The broadcast stop event all workers poll. It transitions once from
/// running to stopped and never reverts; firing it again has no further
/// effect.
pub struct StopSignal {
    stopped: bool,
}

impl StopSignal {
    /// Whether the signal has fired.
    pub closed spec fn is_stopped_spec(&self) -> bool {
        self.stopped
    }

    /// A fresh signal in the running state.
    pub fn new() -> (s: StopSignal)
        ensures
            !s.is_stopped_spec(),
    {
        StopSignal { stopped: false }
    }

    /// Fires the signal. Idempotent: the resulting state is stopped no
    /// matter how often it has fired before, so a second firing changes
    /// nothing.
    pub fn stop(&mut self)
        ensures
            final(self).is_stopped_spec(),
    {
        self.stopped = true;
    }

    /// Polls the signal.
    pub fn is_stopped(&self) -> (r: bool)
        ensures
            r == self.is_stopped_spec(),
    {
        self.stopped
    }
}

/// The call budget of worker `idx` out of `workers` when a run must issue
/// `total` calls in all: every worker gets `total / workers`, and the
/// remainder goes to worker 0, so the split is deterministic and the
/// shares sum to exactly `total`.
pub open spec fn share_of(total: u64, workers: u64, idx: int) -> int
    recommends
        workers > 0,
        0 <= idx < workers,
{
    if idx == 0 {
        total as int / workers as int + total as int % workers as int
    } else {
        total as int / workers as int
    }
}

/// The budget assigned to the first `k` workers together.
pub open spec fn shares_sum(total: u64, workers: u64, k: int) -> int
    decreases k,
{
    if k <= 0 {
        0
    } else {
        shares_sum(total, workers, k - 1) + share_of(total, workers, k - 1)
    }
}

/// Computes worker `idx`'s call budget under a count-based stop.
pub fn worker_share(total: u64, workers: u64, idx: u64) -> (share: u64)
    requires
        workers > 0,
        idx < workers,
    ensures
        share == share_of(total, workers, idx as int),
{
    let base: u64 = total / workers;
    if idx == 0 {
        proof {
            let q: int = total as int / workers as int;
            let r: int = total as int % workers as int;
            vstd::arithmetic::div_mod::lemma_fundamental_div_mod(
                total as int,
                workers as int,
            );
            assert(q + r <= total as int) by (nonlinear_arith)
                requires
                    total as int == workers as int * q + r,
                    workers >= 1,
                    q >= 0,
                    r >= 0,
            ;
        }
        base + total % workers
    } else {
        base
    }
}

/// The shares of the first `k` workers beyond worker 0 total the remainder
/// plus `k` base shares.
proof fn lemma_shares_sum_prefix(total: u64, workers: u64, k: int)
    requires
        workers > 0,
        1 <= k <= workers,
    ensures
        shares_sum(total, workers, k) == total as int % workers as int + k * (
        total as int / workers as int),
    decreases k,
{
    let base = total as int / workers as int;
    if k == 1 {
        assert(shares_sum(total, workers, 0) == 0);
        assert(1 * base == base) by (nonlinear_arith);
    } else {
        lemma_shares_sum_prefix(total, workers, k - 1);
        assert((k - 1) * base + base == k * base) by (nonlinear_arith);
    }
}

/// Count-based stop loses no call and invents none: the per-worker shares
/// sum to exactly the configured total, and when the worker count divides
/// the total evenly, every worker receives exactly `total / workers`.
pub proof fn lemma_shares_cover_total(total: u64, workers: u64)
    requires
        workers > 0,
    ensures
        shares_sum(total, workers, workers as int) == total,
        total as int % workers as int == 0 ==> forall|i: int|
            0 <= i < workers ==> share_of(total, workers, i) == total as int
                / workers as int,
{
    lemma_shares_sum_prefix(total, workers, workers as int);
    vstd::arithmetic::div_mod::lemma_fundamental_div_mod(total as int, workers as int);
    assert((workers as int) * (total as int / workers as int) == (total as int
        / workers as int) * (workers as int)) by (nonlinear_arith);
}

/// One worker's issuing state. A worker repeatedly polls the stop signal,
/// and while it may issue, performs one call and counts it; it never
/// starts a new call after the stop signal fired or its budget ran out
/// (the soft-stop policy), though the call in flight still completes and
/// its outcome is still recorded.
pub struct WorkerState {
    /// Calls this worker has issued so far.
    pub issued: u64,
    /// The worker's call budget under a count-based stop, or `None` when
    /// only the duration timer ends the run.
    pub budget: Option<u64>,
}

impl WorkerState {
    /// The budget is never exceeded.
    pub open spec fn wf(&self) -> bool {
        match self.budget {
            Option::Some(b) => self.issued <= b,
            Option::None => true,
        }
    }

    /// Whether the worker may start one more call given the stop signal's
    /// state: only while the signal has not fired and the budget (if any)
    /// is not exhausted.
    pub open spec fn can_issue(&self, stopped: bool) -> bool {
        &&& !stopped
        &&& match self.budget {
            Option::Some(b) => self.issued < b,
            Option::None => true,
        }
    }

    /// A worker that has not issued any call yet.
    pub fn start(budget: Option<u64>) -> (w: WorkerState)
        ensures
            w.issued == 0,
            w.budget == budget,
            w.wf(),
    {
        WorkerState { issued: 0, budget }
    }

    /// Polls the stop signal and decides whether to start one more call.
    pub fn may_issue(&self, stop: &StopSignal) -> (r: bool)
        ensures
            r == self.can_issue(stop.is_stopped_spec()),
    {
        if stop.is_stopped() {
            return false;
        }
        match self.budget {
            Option::Some(b) => self.issued < b,
            Option::None => true,
        }
    }

    /// Counts one completed call. Callers issue a call only after
    /// `may_issue` allowed it, so the budget is never exceeded; a worker
    /// of a duration-stopped run is bounded by the counter's width alone.
    pub fn on_call_finished(&mut self)
        requires
            old(self).wf(),
            old(self).issued < u64::MAX,
            match old(self).budget {
                Option::Some(b) => old(self).issued < b,
                Option::None => true,
            },
        ensures
            final(self).issued == old(self).issued + 1,
            final(self).budget == old(self).budget,
            final(self).wf(),
    {
        self.issued = self.issued + 1;
    }
}

/// A budgeted worker issues exactly its budget: it may start another call
/// exactly while it has issued fewer calls than its budget (and the stop
/// signal has not fired), and once `issued` reaches the budget it may
/// never issue again, whatever the signal says.
pub proof fn lemma_budget_is_exact(w: WorkerState, stopped: bool, b: u64)
    requires
        w.budget == Option::Some(b),
    ensures
        w.can_issue(stopped) <==> (!stopped && w.issued < b),
        w.issued >= b ==> !w.can_issue(stopped),
{
}

/// The soft stop is final: once the stop signal has fired, no worker may
/// start a new call, whatever its remaining budget. A duration-stopped run
/// therefore ends within the configured duration plus the one in-flight
/// call each worker is allowed to finish.
pub proof fn lemma_stop_is_final(w: WorkerState)
    ensures
        !w.can_issue(true),
{
}

} // verus!
