use pq_stark_bench::report::rows_for;
use pq_stark_bench::report::tx_rows_for;
use pq_stark_bench::risc0_host;
use pq_stark_bench::schemes::{Family, SchemeMeasurement};
use pq_stark_bench::sp1_host;
use pq_stark_bench::stats::Timing;
use pq_stark_bench::zkvm;
use pq_stark_bench::zkvm_run::{
    flat_batch, padded_cycles, precompile_check, risc0_backend, risc0_caveats, risc0_prover_record,
    risc0_scheme_record, sp1_caveats, sp1_prover_record, sp1_scheme_record, zkvm_run_id,
    journal_check, JournalMismatch, PrecompileNotEngaged,
};

fn timing(base: u64) -> Timing {
    Timing {
        median_ns: base,
        p95_ns: base + 1,
        min_ns: base - 1,
        max_ns: base + 2,
        mean_ns: base,
        iterations: 10,
        warmup_iterations: 2,
    }
}

fn measurement() -> SchemeMeasurement {
    SchemeMeasurement {
        scheme: "ml-dsa-44".to_string(),
        family: Family::Lattice,
        standard: "NIST FIPS 204".to_string(),
        implementation: "fips204".to_string(),
        pubkey_bytes: 1312,
        sig_bytes: 2420,
        keygen: timing(100),
        sign: timing(200),
        verify: timing(300),
    }
}

#[test]
fn rows_cover_each_operation_once() {
    let m = measurement();
    let rows = rows_for(&m);
    let ops: Vec<&str> = rows.iter().map(|r| r.operation).collect();
    assert_eq!(ops, vec!["keygen", "sign", "verify"]);
    assert_eq!(rows[1].median_ns, 200);
    assert_eq!(rows[2].p95_ns, 301);
    assert!(rows.iter().all(|r| r.batch_size == 1 && r.proof_bytes.is_none()));
    let tx = tx_rows_for(&m);
    assert_eq!(tx.len(), 3);
    assert_eq!(tx[2].model, "rollup_witness_only");
    assert_eq!(tx[2].on_chain_bytes, 89 + 32);
    assert_eq!(tx[0].total_bytes, 89 + 1312 + 2420);
}

#[test]
fn risc0_scheme_table() {
    assert!(risc0_host::is_known_scheme("ed25519accel"));
    assert!(!risc0_host::is_known_scheme("rsa"));
    let d = risc0_host::scheme_def("ed25519accel");
    assert_eq!(d.name, "ed25519-accel");
    assert_eq!(d.accel_assert_below, Some(2_000_000));
    assert_eq!(d.precompiles, vec!["curve25519"]);
    let f = risc0_host::scheme_def("falcon512");
    assert_eq!(f.spec, "NIST selected. FIPS 206 not published as of 2026-07-23.");
    assert_eq!(f.family, zkvm::Family::Lattice);
    assert_eq!(risc0_host::scheme_def("slhdsa128s").crate_version, "0.4.1");
}

#[test]
fn sp1_scheme_table() {
    assert!(sp1_host::is_known_scheme("mldsa44"));
    assert!(!sp1_host::is_known_scheme("ed25519accel"));
    let d = sp1_host::scheme_def("mldsa44");
    assert_eq!(d.name, "ml-dsa-44");
    assert_eq!(d.caveats.len(), 2);
}

#[test]
fn precompile_assertion_is_per_signature() {
    assert_eq!(precompile_check(None, 10_000_000, 4), Ok(false));
    // 4 accelerated signatures at ~0.9M each pass a 2M per-signature bound.
    assert_eq!(precompile_check(Some(2_000_000), 3_600_000, 4), Ok(true));
    assert_eq!(
        precompile_check(Some(2_000_000), 3_244_248, 1),
        Err(PrecompileNotEngaged { per_sig: 3_244_248, threshold: 2_000_000 })
    );
    assert_eq!(precompile_check(Some(10), 9, 0), Ok(true));
}

#[test]
fn cycles_labels_and_records() {
    assert_eq!(padded_cycles(&[20, 20, 18]), (1 << 21) + (1 << 18));
    assert_eq!(padded_cycles(&[]), 0);
    assert_eq!(risc0_backend(false, "local-m3max"), "none");
    assert_eq!(risc0_backend(true, "local-m3max"), "metal");
    assert_eq!(risc0_backend(true, "ci-x86"), "cpu-scalar");
    assert_eq!(zkvm_run_id("1970-01-01T00-00-00Z-h", "risc0", "ml-dsa-44", "execute", 16),
        "1970-01-01T00-00-00Z-h-risc0-ml-dsa-44-execute-n16");
    let d = risc0_host::scheme_def("mldsa44");
    let c = risc0_caveats(&d, true);
    assert_eq!(c.len(), 5);
    assert_eq!(c[0], "cycle counts are deterministic and machine independent");
    assert_eq!(c[1], d.caveats[0]);
    let s = sp1_host::scheme_def("falcon512");
    assert_eq!(sp1_caveats(&s, false).len(), 4);
    let p = risc0_prover_record("3.0.6", "metal", true, Some(20), &risc0_host::scheme_def("ed25519accel"), true);
    assert_eq!(p.proof_mode, "composite");
    assert_eq!(p.precompiles_used, vec!["curve25519".to_string()]);
    assert_eq!(p.security_bits.value, Some(96));
    let q = sp1_prover_record("none", false);
    assert_eq!(q.proof_mode, "execute");
    assert_eq!(q.security_bits.kind, zkvm::SecurityKind::Unknown);
    assert_eq!(risc0_scheme_record(&d).name, "ml-dsa-44");
    assert!(sp1_scheme_record(&s).conformant);
    assert_eq!(flat_batch(8).n, 8);
}

#[test]
fn journal_must_attest_the_whole_batch() {
    assert_eq!(journal_check(4, 4, 4), Ok(()));
    assert_eq!(
        journal_check(4, 3, 3),
        Err(JournalMismatch::BatchSize { seen: 3, sent: 4 })
    );
    assert_eq!(
        journal_check(4, 4, 2),
        Err(JournalMismatch::Unverified { verified: 2, sent: 4 })
    );
    assert_eq!(journal_check(0, 0, 0), Ok(()));
}
