use pq_stark_bench::stats::keep_sampling;
use pq_stark_bench::stats::measure_bounded;
use pq_stark_bench::stats::percentile_sorted;
use pq_stark_bench::stats::summarize;
use pq_stark_bench::stats::TimeSpan;
use std::cell::Cell;

#[test]
fn percentile_nearest_rank_is_an_observed_value() {
    let s: Vec<u64> = (1..=100).collect();
    // 95th percentile of 1..=100 by nearest rank is the 95th element.
    assert_eq!(percentile_sorted(&s, 95, 100), 95);
    assert_eq!(percentile_sorted(&s, 1, 1), 100);
}

#[test]
fn percentile_handles_single_sample() {
    assert_eq!(percentile_sorted(&[42], 95, 100), 42);
}

#[test]
fn median_odd_and_even() {
    let mut odd = vec![3u64, 1, 2];
    assert_eq!(summarize(&mut odd, 0).median_ns, 2);

    let mut even = vec![4u64, 1, 2, 3];
    assert_eq!(summarize(&mut even, 0).median_ns, 2); // (2+3)/2 = 2 (integer)
}

#[test]
fn summarize_reports_bounds_and_count() {
    let mut s = vec![10u64, 20, 30, 40, 50];
    let t = summarize(&mut s, 7);
    assert_eq!(t.min_ns, 10);
    assert_eq!(t.max_ns, 50);
    assert_eq!(t.iterations, 5);
    assert_eq!(t.warmup_iterations, 7);
    assert_eq!(t.mean_ns, 30);
}

#[test]
fn bounded_always_reaches_the_minimum_even_when_over_budget() {
    let calls = Cell::new(0usize);
    let t = measure_bounded(0, 12, 500, TimeSpan { nanos: 0 }, || {
        calls.set(calls.get() + 1);
    });
    assert_eq!(t.iterations, 12, "minimum iterations must be respected");
}

#[test]
fn bounded_stops_at_max_when_budget_is_generous() {
    let t = measure_bounded(0, 2, 7, TimeSpan::from_secs(60), || 1u8);
    assert_eq!(t.iterations, 7);
}

#[test]
fn warmup_iterations_run_but_are_not_measured() {
    let calls = Cell::new(0usize);
    let t = measure_bounded(3, 10, 10, TimeSpan::from_secs(60), || {
        calls.set(calls.get() + 1);
        calls.get()
    });
    assert_eq!(t.iterations, 10, "only measured iterations are reported");
    assert_eq!(calls.get(), 13, "warmup plus measured iterations actually ran");
}

#[test]
fn summarize_sorts_in_place_and_ranks_p95() {
    let mut s: Vec<u64> = (1..=20).rev().collect();
    let t = summarize(&mut s, 0);
    assert_eq!(s, (1..=20).collect::<Vec<u64>>());
    assert_eq!(t.p95_ns, 19);
    assert_eq!(t.median_ns, 10);
    assert_eq!(t.mean_ns, 10);
    let mut big = vec![u64::MAX, u64::MAX - 1];
    let b = summarize(&mut big, 0);
    assert_eq!(b.mean_ns, u64::MAX - 1);
    assert_eq!(b.median_ns, u64::MAX - 1);
}

#[test]
fn sampling_stops_by_floor_ceiling_and_budget() {
    assert!(keep_sampling(0, 1, 5, 1_000, 0));
    assert!(!keep_sampling(5, 1, 5, 0, 1_000));
    assert!(keep_sampling(3, 1, 5, 10, 11));
    assert!(!keep_sampling(3, 1, 5, 11, 11));
}

#[test]
fn even_median_is_an_observed_sample() {
    let mut s = vec![20u64, 10];
    assert_eq!(summarize(&mut s, 0).median_ns, 10);
    let mut t = vec![1u64, 100, 7, 50];
    assert_eq!(summarize(&mut t, 0).median_ns, 7);
}
