use pq_stark_bench::schemes::canonical_message;
use pq_stark_bench::schemes::Budget;
use pq_stark_bench::schemes::gate_outcome;
use pq_stark_bench::schemes::BenchError;
use pq_stark_bench::tx_format;

#[test]
fn canonical_message_is_stable_and_correct_length() {
    let pk = [1u8; 32];
    let a = canonical_message(&pk);
    let b = canonical_message(&pk);
    assert_eq!(a, b, "message construction must be deterministic");
    assert_eq!(a.len(), tx_format::FIXED_FIELD_BYTES + 32);
}

#[test]
fn canonical_message_fixes_every_field_but_the_key() {
    let pk = [5u8, 6];
    let m = canonical_message(&pk);
    assert_eq!(m[0], 1);
    assert_eq!(&m[1..9], &42u64.to_le_bytes());
    assert_eq!(&m[9..11], &pk);
    assert_eq!(&m[11..43], &[0xAB; 32]);
    assert_eq!(&m[43..51], &1_000_000u64.to_le_bytes());
    assert_eq!(&m[51..59], &1_000u64.to_le_bytes());
    assert_eq!(&m[59..91], &[0; 32]);
}

#[test]
fn budgets_hold_their_floors() {
    let d = Budget::default();
    assert_eq!((d.warmup, d.min_iterations, d.max_iterations), (10, 100, 1000));
    assert_eq!(d.per_op_budget.nanos, 20_000_000_000);
    let q = Budget::quick();
    assert_eq!((q.warmup, q.min_iterations, q.max_iterations), (2, 10, 25));
    assert_eq!(q.per_op_budget.nanos, 3_000_000_000);
}

#[test]
fn the_first_failing_step_stops_the_run() {
    assert_eq!(gate_outcome(true, true, true, true), None);
    assert_eq!(gate_outcome(false, false, false, false), Some(BenchError::KeyGeneration));
    assert_eq!(gate_outcome(true, false, false, true), Some(BenchError::KeyDecoding));
    assert_eq!(gate_outcome(true, true, false, false), Some(BenchError::Signing));
    assert_eq!(gate_outcome(true, true, true, false), Some(BenchError::Rejected));
}
