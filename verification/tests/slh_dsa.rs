use pq_stark_bench::schemes::bench_slh_dsa_sha2_128f;
use pq_stark_bench::schemes::Budget;
use pq_stark_bench::stats::TimeSpan;

fn tiny() -> Budget {
    Budget {
        warmup: 0,
        min_iterations: 2,
        max_iterations: 2,
        per_op_budget: TimeSpan::from_secs(30),
    }
}

#[test]
fn slh_dsa_128f_sizes_match_fips_205() {
    let m = bench_slh_dsa_sha2_128f(tiny()).unwrap();
    assert_eq!(m.pubkey_bytes, 32, "SLH-DSA-128f public key is 32 bytes");
    assert_eq!(m.sig_bytes, 17088, "SLH-DSA-128f signature is 17088 bytes");
}

