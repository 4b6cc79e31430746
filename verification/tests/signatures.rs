use pq_stark_bench::schemes::bench_ecdsa_secp256k1;
use pq_stark_bench::schemes::bench_ed25519;
use pq_stark_bench::schemes::bench_falcon_512;
use pq_stark_bench::schemes::bench_ml_dsa_44;
use pq_stark_bench::schemes::Budget;
use pq_stark_bench::schemes::Family;
use pq_stark_bench::stats::TimeSpan;

fn tiny() -> Budget {
    Budget {
        warmup: 0,
        min_iterations: 2,
        max_iterations: 2,
        per_op_budget: TimeSpan::from_secs(30),
    }
}

#[test]
fn ed25519_sizes_match_the_specification() {
    let m = bench_ed25519(tiny()).unwrap();
    assert_eq!(m.pubkey_bytes, 32, "Ed25519 public key is 32 bytes");
    assert_eq!(m.sig_bytes, 64, "Ed25519 signature is 64 bytes");
    assert!(m.verify.median_ns > 0);
}

#[test]
fn ecdsa_sizes_are_sane() {
    let m = bench_ecdsa_secp256k1(tiny()).unwrap();
    assert_eq!(
        m.pubkey_bytes, 33,
        "compressed secp256k1 public key is 33 bytes"
    );
    assert_eq!(m.sig_bytes, 64, "compact ECDSA signature is 64 bytes");
    assert!(m.verify.median_ns > 0);
}

#[test]
fn ml_dsa_44_sizes_match_fips_204() {
    let m = bench_ml_dsa_44(tiny()).unwrap();
    assert_eq!(m.pubkey_bytes, 1312, "ML-DSA-44 public key is 1312 bytes");
    assert_eq!(m.sig_bytes, 2420, "ML-DSA-44 signature is 2420 bytes");
    assert!(m.verify.median_ns > 0);
}

#[test]
fn falcon_512_sizes_match_the_specification() {
    let m = bench_falcon_512(tiny()).unwrap();
    assert_eq!(m.pubkey_bytes, 897, "Falcon-512 public key is 897 bytes");
    assert_eq!(m.sig_bytes, 666, "Falcon-512 signature is 666 bytes");
    assert!(m.verify.median_ns > 0);
}

#[test]
fn falcon_is_never_described_as_fips_conformant() {
    let m = bench_falcon_512(tiny()).unwrap();
    let s = m.standard.to_lowercase();
    for claim in [
        "fips 206 conformant",
        "fips 206 compliant",
        "fips 206 standard",
        "nist fips 206",
    ] {
        assert!(!s.contains(claim), "must not claim conformance: {claim}");
    }
    assert!(s.contains("nist selected"));
    assert!(s.contains("not published"));
}

#[test]
fn measurements_carry_their_metadata_and_budget() {
    let m = bench_ed25519(tiny()).unwrap();
    assert_eq!(m.scheme, "ed25519");
    assert_eq!(m.family, Family::Classical);
    assert_eq!(m.implementation, "ed25519-dalek");
    for t in [&m.keygen, &m.sign, &m.verify] {
        assert_eq!(t.iterations, 2);
        assert_eq!(t.warmup_iterations, 0);
        assert!(t.min_ns <= t.median_ns && t.median_ns <= t.p95_ns && t.p95_ns <= t.max_ns);
    }
    let l = bench_ml_dsa_44(tiny()).unwrap();
    assert_eq!((l.scheme.as_str(), l.family), ("ml-dsa-44", Family::Lattice));
    assert_eq!(l.standard, "NIST FIPS 204");
}
