//! Accumulates per-call latency samples and reports count, mean and
//! percentiles over them.

use vstd::prelude::*;
use vstd::relations::{sorted_by, total_ordering};
use vstd::seq_lib::{
    commutative_foldl, lemma_fold_left_permutation, lemma_sorted_unique,
};

verus! {

/// The order in which latency samples are ranked: ordinary `<=` on u64.
pub open spec fn latency_leq() -> spec_fn(u64, u64) -> bool {
    |x: u64, y: u64| x <= y
}

/// The recorded samples in ascending order. Two sample sequences with the
/// same multiset of entries have the same sorted view, so every statistic
/// defined over `sorted_of` is independent of recording order.
pub open spec fn sorted_of(s: Seq<u64>) -> Seq<u64> {
    s.sort_by(latency_leq())
}

/// The fold step for summing samples.
pub open spec fn add_sample() -> spec_fn(int, u64) -> int {
    |acc: int, x: u64| acc + x
}

/// The sum of all recorded samples, in nanoseconds.
pub open spec fn sum_ns(s: Seq<u64>) -> int {
    s.fold_left(0, add_sample())
}

/// The arithmetic mean of the samples, rounded down to whole nanoseconds.
pub open spec fn mean_of(s: Seq<u64>) -> int
    recommends
        s.len() > 0,
{
    sum_ns(s) / (s.len() as int)
}

/// The rank that percentile `p` selects in a sorted sequence of `len`
/// samples: `len * p / 100`, clamped to the last element so that the
/// 100th percentile is the maximum.
pub open spec fn percentile_index(len: int, p: int) -> int
    recommends
        len > 0,
        0 <= p <= 100,
{
    if len * p / 100 < len {
        len * p / 100
    } else {
        len - 1
    }
}

/// The `p`-th percentile of the samples: the entry of the ascending sorted
/// view at rank `percentile_index`.
pub open spec fn percentile_of(s: Seq<u64>, p: int) -> u64
    recommends
        s.len() > 0,
        0 <= p <= 100,
{
    sorted_of(s)[percentile_index(s.len() as int, p)]
}

/// `latency_leq` is a total order, as the sorting lemmas require.
pub proof fn lemma_latency_leq_total()
    ensures
        total_ordering(latency_leq()),
{
}

/// The sorted view keeps the multiset of samples, is sorted, and has the
/// same length as the unsorted sequence.
pub proof fn lemma_sorted_of_ensures(s: Seq<u64>)
    ensures
        sorted_of(s).to_multiset() == s.to_multiset(),
        sorted_by(sorted_of(s), latency_leq()),
        sorted_of(s).len() == s.len(),
{
    broadcast use vstd::seq_lib::group_to_multiset_ensures;

    lemma_latency_leq_total();
    s.lemma_sort_by_ensures(latency_leq());
    assert(s.len() == s.to_multiset().len());
    assert(sorted_of(s).len() == sorted_of(s).to_multiset().len());
}

/// Collects latency samples during a benchmark run. Recording never
/// rejects a sample: every sample contributes to the count and to the
/// statistics. Statistics are read only once recording has stopped.
pub struct LatencyRecorder {
    samples: Vec<u64>,
}

impl View for LatencyRecorder {
    type V = Seq<u64>;

    closed spec fn view(&self) -> Seq<u64> {
        self.samples@
    }
}

impl LatencyRecorder {
    /// An empty recorder with no samples.
    pub fn new() -> (r: LatencyRecorder)
        ensures
            r@ == Seq::<u64>::empty(),
    {
        LatencyRecorder { samples: Vec::new() }
    }

    /// Appends one latency sample, in nanoseconds. Never drops a sample.
    pub fn record(&mut self, latency_ns: u64)
        ensures
            final(self)@ == old(self)@.push(latency_ns),
    {
        self.samples.push(latency_ns);
    }

    /// Moves every sample of `other` into `self`. Used to merge per-worker
    /// recorders at drain time: no sample is lost and none is duplicated.
    pub fn merge(&mut self, other: LatencyRecorder)
        ensures
            final(self)@ == old(self)@ + other@,
    {
        let mut o = other;
        self.samples.append(&mut o.samples);
    }

    /// How many samples have been recorded.
    pub fn count(&self) -> (n: usize)
        ensures
            n == self@.len(),
    {
        self.samples.len()
    }

    /// The recorded samples, in ascending order.
    pub fn sorted_samples(&self) -> (out: Vec<u64>)
        ensures
            out@ == sorted_of(self@),
    {
        let n: usize = self.samples.len();
        let mut out: Vec<u64> = Vec::new();
        let mut i: usize = 0;
        proof {
            assert(self@.take(0) == out@);
        }
        while i < n
            invariant
                i <= n,
                n == self@.len(),
                out@.len() == i,
                sorted_by(out@, latency_leq()),
                out@.to_multiset() == self@.take(i as int).to_multiset(),
            decreases n - i,
        {
            let x: u64 = self.samples[i];
            let mut k: usize = 0;
            while k < out.len() && out[k] <= x
                invariant
                    k <= out@.len(),
                    forall|j: int| 0 <= j < k ==> out@[j] <= x,
                decreases out@.len() - k,
            {
                k = k + 1;
            }
            let ghost prev = out@;
            out.insert(k, x);
            proof {
                broadcast use vstd::seq_lib::group_to_multiset_ensures;

                assert(out@ == prev.insert(k as int, x));
                assert forall|a: int, b: int| 0 <= a < b < out@.len() implies
                    latency_leq()(out@[a], out@[b]) by {
                    if b < k {
                        assert(out@[a] == prev[a] && out@[b] == prev[b]);
                    } else if b == k {
                        assert(out@[b] == x);
                        assert(out@[a] == prev[a] && a < k);
                    } else {
                        assert(out@[b] == prev[b - 1]);
                        assert(k < prev.len());
                        assert(prev[k as int] > x);
                        if (k as int) < b - 1 {
                            assert(latency_leq()(prev[k as int], prev[b - 1]));
                        }
                        assert(prev[k as int] <= prev[b - 1]);
                        if a < k {
                            assert(out@[a] == prev[a]);
                            assert(prev[a] <= x);
                            assert(x < prev[b - 1]);
                        } else if a == k {
                            assert(out@[a] == x);
                            assert(x < prev[k as int]);
                        } else {
                            assert(out@[a] == prev[a - 1]);
                            assert(latency_leq()(prev[a - 1], prev[b - 1]));
                        }
                    }
                }
                vstd::seq_lib::to_multiset_insert(prev, k as int, x);
                assert(self@.take(i + 1) == self@.take(i as int).push(self@[i as int]));
                vstd::seq_lib::to_multiset_build(self@.take(i as int), self@[i as int]);
                assert(out@.to_multiset() == self@.take(i + 1).to_multiset());
            }
            i = i + 1;
        }
        proof {
            assert(self@.take(n as int) == self@);
            lemma_sorted_of_ensures(self@);
            lemma_latency_leq_total();
            lemma_sorted_unique(out@, sorted_of(self@), latency_leq());
            assert(out@ == sorted_of(self@));
        }
        out
    }

    /// The mean latency over all recorded samples, in whole nanoseconds.
    pub fn mean_ns(&self) -> (m: u64)
        requires
            self@.len() > 0,
        ensures
            m == mean_of(self@),
    {
        let n: usize = self.samples.len();
        let mut acc: u128 = 0;
        let mut i: usize = 0;
        while i < n
            invariant
                i <= n,
                n == self@.len(),
                acc == sum_ns(self@.take(i as int)),
                acc <= (i as int) * 0xffff_ffff_ffff_ffffu64,
            decreases n - i,
        {
            let x: u64 = self.samples[i];
            proof {
                lemma_sum_step(self@, i as int);
                assert((i as int) * 0xffff_ffff_ffff_ffffu64
                    + 0xffff_ffff_ffff_ffffu64
                    == (i as int + 1) * 0xffff_ffff_ffff_ffffu64) by (nonlinear_arith);
                assert((i as int + 1) * 0xffff_ffff_ffff_ffffu64 <= u128::MAX) by (nonlinear_arith)
                    requires
                        i as int + 1 <= 0x1_0000_0000_0000_0000,
                ;
            }
            acc = acc + (x as u128);
            i = i + 1;
        }
        proof {
            assert(self@.take(n as int) == self@);
            assert(acc / (n as u128) <= 0xffff_ffff_ffff_ffffu64) by (nonlinear_arith)
                requires
                    n > 0,
                    acc <= (n as int) * 0xffff_ffff_ffff_ffffu64,
            ;
        }
        let m: u128 = acc / (n as u128);
        m as u64
    }

    /// The `p`-th percentile latency, in nanoseconds, over all recorded
    /// samples. The 0th percentile is the minimum sample and the 100th
    /// the maximum.
    pub fn percentile_ns(&self, p: u8) -> (r: u64)
        requires
            0 <= p <= 100,
            self@.len() > 0,
        ensures
            r == percentile_of(self@, p as int),
    {
        let sorted: Vec<u64> = self.sorted_samples();
        proof {
            lemma_sorted_of_ensures(self@);
        }
        let n: usize = sorted.len();
        proof {
            assert((n as u128) * (p as u128) <= u128::MAX) by (nonlinear_arith)
                requires
                    n <= 0xffff_ffff_ffff_ffffu64,
                    p <= 100,
            ;
        }
        let prod: u128 = (n as u128) * (p as u128);
        let idx128: u128 = prod / 100;
        let idx: usize = if idx128 < n as u128 {
            idx128 as usize
        } else {
            n - 1
        };
        proof {
            assert(prod == (n as int) * (p as int)) by (nonlinear_arith)
                requires
                    prod == (n as u128) * (p as u128),
                    n <= u64::MAX,
                    p <= 100,
            ;
            assert(idx == percentile_index(self@.len() as int, p as int));
        }
        sorted[idx]
    }
}

/// Summing one more sample extends the running total by that sample.
proof fn lemma_sum_step(s: Seq<u64>, i: int)
    requires
        0 <= i < s.len(),
    ensures
        sum_ns(s.take(i + 1)) == sum_ns(s.take(i)) + s[i],
{
    let t = s.take(i + 1);
    assert(t.drop_last() == s.take(i));
    assert(t.last() == s[i]);
    assert(t.fold_left(0, add_sample())
        == add_sample()(t.drop_last().fold_left(0, add_sample()), t.last()));
}

/// Percentile 100 is the largest recorded latency and percentile 0 the
/// smallest: each is itself a recorded sample, and every sample lies
/// between them.
pub proof fn lemma_percentile_extremes(s: Seq<u64>)
    requires
        s.len() > 0,
    ensures
        s.to_multiset().contains(percentile_of(s, 100)),
        forall|i: int| 0 <= i < s.len() ==> s[i] <= percentile_of(s, 100),
        s.to_multiset().contains(percentile_of(s, 0)),
        forall|i: int| 0 <= i < s.len() ==> percentile_of(s, 0) <= s[i],
{
    broadcast use vstd::seq_lib::group_to_multiset_ensures;

    let sorted = sorted_of(s);
    lemma_sorted_of_ensures(s);
    let len = s.len() as int;
    assert(percentile_index(len, 100) == len - 1);
    assert(percentile_index(len, 0) == 0);
    let hi = sorted[len - 1];
    let lo = sorted[0];
    assert(sorted.contains(hi));
    assert(sorted.contains(lo));
    assert(s.to_multiset().contains(hi));
    assert(s.to_multiset().contains(lo));
    assert forall|i: int| 0 <= i < s.len() implies s[i] <= hi && lo <= s[i] by {
        assert(s.contains(s[i]));
        assert(s.to_multiset().contains(s[i]));
        assert(sorted.contains(s[i]));
        let j = choose|j: int| 0 <= j < sorted.len() && sorted[j] == s[i];
        if j < len - 1 {
            assert(latency_leq()(sorted[j], sorted[len - 1]));
        }
        if 0 < j {
            assert(latency_leq()(sorted[0], sorted[j]));
        }
    }
}

/// Recording order independence: two sample sequences that hold the same
/// multiset of latencies have the same sorted view, the same mean, and the
/// same value for every percentile.
pub proof fn lemma_order_independence(s1: Seq<u64>, s2: Seq<u64>)
    requires
        s1.to_multiset() == s2.to_multiset(),
    ensures
        sorted_of(s1) == sorted_of(s2),
        s1.len() == s2.len(),
        sum_ns(s1) == sum_ns(s2),
        s1.len() > 0 ==> mean_of(s1) == mean_of(s2),
        forall|p: int| 0 <= p <= 100 ==> percentile_of(s1, p) == percentile_of(s2, p),
{
    broadcast use vstd::seq_lib::group_to_multiset_ensures;

    lemma_latency_leq_total();
    lemma_sorted_of_ensures(s1);
    lemma_sorted_of_ensures(s2);
    lemma_sorted_unique(sorted_of(s1), sorted_of(s2), latency_leq());
    assert(sorted_of(s1) == sorted_of(s2));
    assert(s1.len() == s1.to_multiset().len());
    assert(s2.len() == s2.to_multiset().len());
    assert(commutative_foldl(add_sample()));
    lemma_fold_left_permutation(s1, s2, add_sample(), 0);
}

} // verus!
