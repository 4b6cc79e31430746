//! Timing harness and summary statistics.
//!
//! Raw per-iteration nanosecond samples are collected and the statistics are
//! derived from them. Median and p95 come from the sorted sample vector using
//! the nearest-rank method, which never interpolates: every reported
//! median, p95, min and max is a sample that was actually observed.
use vstd::prelude::*;
use std::time::Instant;

verus! {

#[verifier::external_type_specification]
#[verifier::external_body]
pub struct ExInstant(Instant);

/// A span of time in whole nanoseconds: the wall-clock budget of a
/// measurement.
#[derive(Debug, Clone, Copy, PartialEq, Eq, Structural)]
pub struct TimeSpan {
    pub nanos: u128,
}

impl TimeSpan {
    /// A span of `secs` whole seconds.
    pub fn from_secs(secs: u64) -> (r: TimeSpan)
        ensures
            r.nanos == secs * 1_000_000_000,
    {
        TimeSpan { nanos: secs as u128 * 1_000_000_000 }
    }
}

/// Summary of one timed measurement.
#[derive(Debug, Clone, Copy, PartialEq, Eq, Structural)]
pub struct Timing {
    pub median_ns: u64,
    pub p95_ns: u64,
    pub min_ns: u64,
    pub max_ns: u64,
    pub mean_ns: u64,
    /// Iterations actually measured, excluding warmup.
    pub iterations: usize,
    /// Warmup iterations discarded before measurement began.
    pub warmup_iterations: usize,
}

/// `s` is in non-decreasing order.
pub open spec fn is_sorted(s: Seq<u64>) -> bool {
    forall|i: int, j: int| 0 <= i <= j < s.len() ==> s[i] <= s[j]
}

/// Sum of the samples.
pub open spec fn seq_sum(s: Seq<u64>) -> int
    decreases s.len(),
{
    if s.len() == 0 {
        0
    } else {
        seq_sum(s.drop_last()) + s.last()
    }
}

/// Nearest rank (1-based) of the `num/den` quantile among `n` samples:
/// the smallest rank `k` with `k / n >= num / den`.
pub open spec fn nearest_rank(n: int, num: int, den: int) -> int {
    (num * n + den - 1) / den
}

/// Nearest-rank median of sorted samples: the sample of rank `ceil(n / 2)`,
/// that is `s[(n - 1) / 2]`, the lower of the two central samples when the
/// count is even. It is always an observed sample.
pub open spec fn median_of(s: Seq<u64>) -> int {
    s[(s.len() - 1) / 2] as int
}

/// The summary of sorted samples `s` with `warmup` discarded iterations.
pub open spec fn timing_of(s: Seq<u64>, warmup: usize) -> Timing {
    let n = s.len() as int;
    Timing {
        median_ns: median_of(s) as u64,
        p95_ns: s[nearest_rank(n, 95, 100) - 1],
        min_ns: s[0],
        max_ns: s[n - 1],
        mean_ns: (seq_sum(s) / n) as u64,
        iterations: n as usize,
        warmup_iterations: warmup,
    }
}

/// Sorts the samples in place (`<[u64]>::sort_unstable`): the result is in
/// non-decreasing order and holds the same samples.
#[verifier::external_body]
fn sort_samples(v: &mut [u64])
    ensures
        is_sorted(final(v)@),
        final(v)@.to_multiset() == old(v)@.to_multiset(),
{
    v.sort_unstable()
}

/// Nearest-rank quantile `num/den` of an already-sorted, non-empty slice.
///
/// Returns the smallest observed value at or above the quantile. No
/// interpolation: the result is always one of the samples.
pub fn percentile_sorted(sorted: &[u64], num: u64, den: u64) -> (r: u64)
    requires
        sorted@.len() > 0,
        0 < num <= den,
    ensures
        1 <= nearest_rank(sorted@.len() as int, num as int, den as int) <= sorted@.len(),
        r == sorted@[nearest_rank(sorted@.len() as int, num as int, den as int) - 1],
{
    let n = sorted.len();
    assert((num as u128) * (n as u128) <= 0xffff_ffff_ffff_ffff_u128 * 0xffff_ffff_ffff_ffff_u128) by (nonlinear_arith)
        requires num <= 0xffff_ffff_ffff_ffff_u64, n <= 0xffff_ffff_ffff_ffff_u64;
    let rank = ((num as u128) * (n as u128) + (den as u128) - 1) / (den as u128);
    proof {
        lemma_nearest_rank_bounds(n as int, num as int, den as int);
    }
    let idx = (rank - 1) as usize;
    sorted[idx]
}

proof fn lemma_nearest_rank_bounds(n: int, num: int, den: int)
    requires
        n > 0,
        0 < num <= den,
    ensures
        1 <= nearest_rank(n, num, den) <= n,
        den * (nearest_rank(n, num, den) - 1) < num * n,
        num * n <= den * nearest_rank(n, num, den),
{
    let k = nearest_rank(n, num, den);
    assert(num * n <= den * n) by (nonlinear_arith)
        requires 0 < num <= den, n > 0;
    assert(num * n >= 1) by (nonlinear_arith)
        requires 0 < num, n > 0;
    assert(den * k <= num * n + den - 1 && num * n + den - 1 < den * (k + 1)) by (nonlinear_arith)
        requires k == (num * n + den - 1) / den, den > 0;
    assert(k <= n) by (nonlinear_arith)
        requires den * k <= num * n + den - 1, num * n <= den * n, den > 0;
    assert(k >= 1) by (nonlinear_arith)
        requires num * n + den - 1 < den * (k + 1), num * n >= 1, den > 0;
    assert(den * (k - 1) < num * n) by (nonlinear_arith)
        requires den * k <= num * n + den - 1, den > 0;
    assert(num * n <= den * k) by (nonlinear_arith)
        requires num * n + den - 1 < den * (k + 1), den > 0;
}

/// The nearest rank is the smallest rank whose share of the samples reaches
/// the quantile: `rank / n >= num / den`, and `(rank - 1) / n < num / den`.
pub proof fn lemma_nearest_rank_is_smallest(n: int, num: int, den: int)
    requires
        n > 0,
        0 < num <= den,
    ensures
        den * nearest_rank(n, num, den) >= num * n,
        den * (nearest_rank(n, num, den) - 1) < num * n,
{
    lemma_nearest_rank_bounds(n, num, den);
}

proof fn lemma_seq_sum_take_step(s: Seq<u64>, i: int)
    requires
        0 <= i < s.len(),
    ensures
        seq_sum(s.take(i + 1)) == seq_sum(s.take(i)) + s[i],
{
    assert(s.take(i + 1).drop_last() =~= s.take(i));
}

/// Summarizes raw samples: sorts them in place, then reports the nearest-rank
/// median and p95, min, max and floor mean, with the sample and warmup
/// counts.
pub fn summarize(samples: &mut [u64], warmup: usize) -> (r: Timing)
    requires
        old(samples)@.len() > 0,
    ensures
        is_sorted(final(samples)@),
        final(samples)@.to_multiset() == old(samples)@.to_multiset(),
        r == timing_of(final(samples)@, warmup),
{
    sort_samples(samples);
    let n = samples.len();
    proof {
        final(samples)@.to_multiset_ensures();
        old(samples)@.to_multiset_ensures();
    }
    let mut sum: u128 = 0;
    let mut i: usize = 0;
    while i < n
        invariant
            n == samples@.len(),
            i <= n,
            sum == seq_sum(samples@.take(i as int)),
            sum <= i * 0xffff_ffff_ffff_ffffu128,
        decreases n - i,
    {
        proof {
            lemma_seq_sum_take_step(samples@, i as int);
        }
        assert(sum + samples@[i as int] <= (i + 1) * 0xffff_ffff_ffff_ffffu128) by (nonlinear_arith)
            requires sum <= i * 0xffff_ffff_ffff_ffffu128, samples@[i as int] <= 0xffff_ffff_ffff_ffffu128;
        assert((i + 1) * 0xffff_ffff_ffff_ffffu128 <= 0xffff_ffff_ffff_ffff_ffff_ffff_ffff_ffffu128) by (nonlinear_arith)
            requires i < n, n <= usize::MAX;
        sum = sum + samples[i] as u128;
        i = i + 1;
    }
    assert(samples@.take(n as int) =~= samples@);
    proof {
        lemma_sum_bounds(samples@);
    }

    // Nearest rank: never an interpolated value.
    let median_ns = samples[(n - 1) / 2];
    let mean_ns = (sum / n as u128) as u64;

    Timing {
        median_ns,
        p95_ns: percentile_sorted(samples, 95, 100),
        min_ns: samples[0],
        max_ns: samples[n - 1],
        mean_ns,
        iterations: n,
        warmup_iterations: warmup,
    }
}

/// The sum of sorted samples lies between `n * min` and `n * max`.
proof fn lemma_sum_bounds(s: Seq<u64>)
    requires
        s.len() > 0,
        is_sorted(s),
    ensures
        s.len() * s[0] <= seq_sum(s) <= s.len() * s[s.len() - 1],
    decreases s.len(),
{
    let n = s.len() as int;
    if n == 1 {
        assert(s.drop_last().len() == 0);
        assert(seq_sum(s) == seq_sum(s.drop_last()) + s[0]);
    } else {
        let t = s.drop_last();
        lemma_sum_bounds(t);
        assert(t[0] == s[0] && t[n - 2] <= s[n - 1]);
        assert((n - 1) * t[n - 2] <= (n - 1) * s[n - 1]) by (nonlinear_arith)
            requires t[n - 2] <= s[n - 1], n > 1;
        assert(s.len() * s[0] <= seq_sum(s) <= s.len() * s[s.len() - 1]) by (nonlinear_arith)
            requires
                seq_sum(s) == seq_sum(t) + s[n - 1],
                (n - 1) * t[0] <= seq_sum(t) <= (n - 1) * t[n - 2],
                (n - 1) * t[n - 2] <= (n - 1) * s[n - 1],
                t[0] == s[0],
                s[0] <= s[n - 1],
                s.len() == n;
    }
}

proof fn lemma_seq_sum_is_fold(s: Seq<u64>)
    ensures
        seq_sum(s) == s.fold_left(0int, |acc: int, x: u64| acc + x),
    decreases s.len(),
{
    if s.len() > 0 {
        lemma_seq_sum_is_fold(s.drop_last());
    }
}

/// The reported mean is the floor of the arithmetic mean of all the
/// samples: `mean * n <= total < (mean + 1) * n`, where `total` adds up every
/// sample.
pub proof fn lemma_mean_is_floor_of_average(s: Seq<u64>, warmup: usize)
    requires
        s.len() > 0,
        is_sorted(s),
    ensures
        ({
            let total = s.fold_left(0int, |acc: int, x: u64| acc + x);
            let mean = timing_of(s, warmup).mean_ns as int;
            mean * s.len() <= total < (mean + 1) * s.len()
        }),
{
    lemma_seq_sum_is_fold(s);
    lemma_sum_bounds(s);
    let n = s.len() as int;
    let sum = seq_sum(s);
    assert(0 <= sum / n <= s[n - 1]) by (nonlinear_arith)
        requires n * s[0] <= sum <= n * s[n - 1], n > 0, s[0] >= 0;
    assert((sum / n) * n <= sum < (sum / n + 1) * n) by (nonlinear_arith)
        requires n > 0, sum >= 0;
}

/// Ordering of the reported figures: `min <= median <= p95 <= max` and
/// `min <= mean <= max`; min, median, p95 and max are observed samples.
pub proof fn lemma_timing_is_ordered(s: Seq<u64>, warmup: usize)
    requires
        s.len() > 0,
        is_sorted(s),
    ensures
        ({
            let t = timing_of(s, warmup);
            &&& t.min_ns <= t.median_ns <= t.p95_ns <= t.max_ns
            &&& t.min_ns <= t.mean_ns <= t.max_ns
            &&& s.contains(t.min_ns) && s.contains(t.median_ns) && s.contains(t.p95_ns) && s.contains(t.max_ns)
        }),
{
    let n = s.len() as int;
    let k = nearest_rank(n, 95, 100);
    lemma_nearest_rank_bounds(n, 95, 100);
    assert(k - 1 >= n / 2);
    lemma_sum_bounds(s);
    let sum = seq_sum(s);
    assert(s[0] <= sum / n <= s[n - 1]) by (nonlinear_arith)
        requires n * s[0] <= sum <= n * s[n - 1], n > 0;
    assert(s[(n - 1) / 2] == median_of(s));
    assert(s.contains(s[(n - 1) / 2]));
    assert(s.contains(s[0]));
    assert(s.contains(s[k - 1]));
    assert(s.contains(s[n - 1]));
}

/// Reads the monotonic clock (`Instant::now`). Nothing is stated of the
/// reading: it depends on the time.
#[verifier::external_body]
fn clock_now() -> (r: Instant) {
    Instant::now()
}

/// Nanoseconds elapsed since `start` (`Instant::elapsed`, then
/// `Duration::as_nanos`). Nothing is stated: it depends on the time.
#[verifier::external_body]
fn nanos_since(start: &Instant) -> (r: u128) {
    start.elapsed().as_nanos()
}

/// Runs the caller's workload once and passes its output through
/// `std::hint::black_box` so that it is not optimized away.
#[verifier::external_body]
fn run_workload<T, F: Fn() -> T>(f: &F)
    requires
        call_requires(*f, ()),
{
    std::hint::black_box(f());
}

/// Whether sampling goes on after `taken` measured iterations: always below
/// the minimum, never at the maximum, and in between only while the time
/// spent is under the budget.
pub fn keep_sampling(taken: usize, min_iterations: usize, max_iterations: usize, elapsed_ns: u128, budget_ns: u128) -> (r: bool)
    ensures
        r == (taken < max_iterations && (taken < min_iterations || elapsed_ns < budget_ns)),
{
    taken < max_iterations && (taken < min_iterations || elapsed_ns < budget_ns)
}

/// Once the minimum is reached, sampling overruns the budget by at most one
/// sample: when the samples before the last add up to less than the budget
/// (what `measure_bounded` ensures past the minimum), all of them add up to
/// less than the budget plus the last one, and every earlier prefix stays
/// under the budget.
pub proof fn lemma_budget_overrun_is_one_sample(taken: Seq<u64>, budget_ns: u128)
    requires
        taken.len() > 0,
        seq_sum(taken.drop_last()) < budget_ns,
    ensures
        seq_sum(taken) < budget_ns + taken.last(),
        forall|k: int| 0 <= k < taken.len() ==> #[trigger] seq_sum(taken.take(k)) < budget_ns,
{
    assert forall|k: int| 0 <= k < taken.len() implies #[trigger] seq_sum(taken.take(k)) < budget_ns by {
        lemma_prefix_sum_monotone(taken.drop_last(), k);
        assert(taken.drop_last().take(k) =~= taken.take(k));
    }
}

proof fn lemma_prefix_sum_monotone(s: Seq<u64>, k: int)
    requires
        0 <= k <= s.len(),
    ensures
        seq_sum(s.take(k)) <= seq_sum(s),
    decreases s.len() - k,
{
    if k < s.len() {
        lemma_prefix_sum_monotone(s, k + 1);
        lemma_seq_sum_take_step(s, k);
    } else {
        assert(s.take(k) =~= s);
    }
}

/// Times `f` with both an iteration target and a wall-clock budget.
///
/// Runs `warmup` unmeasured iterations, then always measures at least
/// `min_iterations` and keeps going up to `max_iterations` only while the
/// elapsed time is under `budget`; a zero budget takes exactly the minimum.
/// Every sample is a slice of the one measurement clock, so past the minimum
/// a further sample is taken only while the samples taken so far add up to
/// less than the budget. The result summarizes the samples taken.
pub fn measure_bounded<T, F: Fn() -> T>(
    warmup: usize,
    min_iterations: usize,
    max_iterations: usize,
    budget: TimeSpan,
    f: F,
) -> (r: Timing)
    requires
        min_iterations > 0,
        max_iterations >= min_iterations,
        call_requires(f, ()),
    ensures
        min_iterations <= r.iterations <= max_iterations,
        budget.nanos == 0 ==> r.iterations == min_iterations,
        r.warmup_iterations == warmup,
        exists|s: Seq<u64>| s.len() == r.iterations && is_sorted(s) && r == timing_of(s, warmup),
        exists|taken: Seq<u64>, s: Seq<u64>| #![trigger taken.to_multiset(), s.to_multiset()]
            taken.len() == r.iterations && s.to_multiset() == taken.to_multiset() && is_sorted(s)
            && r == timing_of(s, warmup)
            && (r.iterations > min_iterations ==> seq_sum(taken.drop_last()) < budget.nanos),
{
    let mut w: usize = 0;
    while w < warmup
        invariant
            w <= warmup,
            call_requires(f, ()),
        decreases warmup - w,
    {
        run_workload(&f);
        w = w + 1;
    }

    let budget_ns = budget.nanos;
    let mut samples: Vec<u64> = Vec::new();
    let overall = clock_now();
    // The latest reading of the time since `overall`. A monotonic clock
    // never reads less than before, so taking the later of two readings
    // changes nothing and lets the proof rely on it.
    let mut reading: u128 = 0;
    let mut i: usize = 0;
    loop
        invariant
            i == samples.len(),
            i <= max_iterations,
            min_iterations <= max_iterations,
            budget_ns == budget.nanos,
            budget_ns == 0 ==> i <= min_iterations,
            call_requires(f, ()),
            seq_sum(samples@) <= reading,
            i > min_iterations ==> seq_sum(samples@.drop_last()) < budget_ns,
        ensures
            min_iterations <= i <= max_iterations,
            i == samples.len(),
            budget_ns == 0 ==> i == min_iterations,
            i > min_iterations ==> seq_sum(samples@.drop_last()) < budget_ns,
        decreases max_iterations - i,
    {
        let read_before = nanos_since(&overall);
        let before = if read_before > reading { read_before } else { reading };
        let elapsed = if i >= min_iterations { before } else { 0 };
        if !keep_sampling(i, min_iterations, max_iterations, elapsed, budget_ns) {
            break;
        }
        run_workload(&f);
        let read_after = nanos_since(&overall);
        let after = if read_after > before { read_after } else { before };
        let ns = after - before;
        let sample: u64 = #[verifier::truncate] (ns as u64);
        assert(sample as u128 <= ns) by (bit_vector)
            requires sample == ns as u64;
        let ghost old_samples = samples@;
        samples.push(sample);
        proof {
            assert(samples@.drop_last() =~= old_samples);
        }
        reading = after;
        i = i + 1;
    }

    let ghost taken = samples@;
    let t = summarize(samples.as_mut_slice(), warmup);
    proof {
        samples@.to_multiset_ensures();
        taken.to_multiset_ensures();
        assert(samples@.len() == samples@.to_multiset().len());
        assert(taken.to_multiset() == samples@.to_multiset());
    }
    t
}

} // verus!
