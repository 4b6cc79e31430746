use pq_stark_bench::guest::build_batch;
use pq_stark_bench::guest::build_ed25519;
use pq_stark_bench::guest::build_falcon512;
use pq_stark_bench::guest::build_mldsa44;
use pq_stark_bench::guest::guest_scheme;
use pq_stark_bench::guest::tally;
use pq_stark_bench::guest::verify_batch;
use pq_stark_bench::guest::GuestBatch;
use pq_stark_bench::guest::GuestScheme;
use pq_stark_bench::guest::VerifyJob;
use pq_stark_bench::schemes::canonical_message;

#[test]
fn lane_names_select_guests() {
    assert_eq!(guest_scheme("ed25519"), Some(GuestScheme::Ed25519));
    assert_eq!(guest_scheme("ed25519accel"), Some(GuestScheme::Ed25519));
    assert_eq!(guest_scheme("falcon512"), Some(GuestScheme::Falcon512));
    assert_eq!(guest_scheme("mldsa44"), Some(GuestScheme::MlDsa44));
    assert_eq!(guest_scheme("slhdsa128s"), Some(GuestScheme::SlhDsa128s));
    assert_eq!(guest_scheme("rsa"), None);
}

#[test]
fn tally_counts_the_verified_jobs() {
    assert_eq!(tally(&[]), (0, 0));
    assert_eq!(tally(&[true, false, true]), (3, 2));
    assert_eq!(tally(&[false, false]), (2, 0));
}

#[test]
fn ed25519_batch_verifies_in_full() {
    let b = build_ed25519(3).unwrap();
    assert_eq!(b.jobs.len(), 3);
    for j in &b.jobs {
        assert_eq!(j.pubkey.len(), 32);
        assert_eq!(j.signature.len(), 64);
        assert_eq!(j.message, canonical_message(&j.pubkey));
    }
    assert_eq!(verify_batch(GuestScheme::Ed25519, &b), (3, 3));
}

#[test]
fn tampered_and_malformed_jobs_are_not_counted() {
    let mut b = build_ed25519(3).unwrap();
    b.jobs[0].signature[5] ^= 1;
    b.jobs[1].pubkey.pop();
    assert_eq!(verify_batch(GuestScheme::Ed25519, &b), (3, 1));
    let empty = GuestBatch { jobs: Vec::new() };
    assert_eq!(verify_batch(GuestScheme::Ed25519, &empty), (0, 0));
}

#[test]
fn a_signature_of_one_scheme_is_not_accepted_by_another() {
    let b = build_ed25519(1).unwrap();
    assert_eq!(verify_batch(GuestScheme::SlhDsa128s, &b), (1, 0));
    assert_eq!(verify_batch(GuestScheme::MlDsa44, &b), (1, 0));
    assert_eq!(verify_batch(GuestScheme::Falcon512, &b), (1, 0));
}

#[test]
fn mldsa44_batch_verifies_in_full() {
    let mut b = build_mldsa44(2).unwrap();
    for j in &b.jobs {
        assert_eq!((j.pubkey.len(), j.signature.len()), (1312, 2420));
    }
    assert_eq!(verify_batch(GuestScheme::MlDsa44, &b), (2, 2));
    b.jobs[1].message[0] ^= 0xff;
    assert_eq!(verify_batch(GuestScheme::MlDsa44, &b), (2, 1));
}

#[test]
fn falcon512_batch_verifies_in_full() {
    let mut b = build_falcon512(2).unwrap();
    for j in &b.jobs {
        assert_eq!((j.pubkey.len(), j.signature.len()), (897, 666));
        assert_eq!(j.message, canonical_message(&j.pubkey));
    }
    assert_eq!(verify_batch(GuestScheme::Falcon512, &b), (2, 2));
    b.jobs[0].pubkey = vec![0u8; 3];
    assert_eq!(verify_batch(GuestScheme::Falcon512, &b), (2, 1));
}

#[test]
fn build_batch_follows_the_lane_name() {
    let b = build_batch("ed25519accel", 2).unwrap();
    assert_eq!(verify_batch(GuestScheme::Ed25519, &b), (2, 2));
    let job = VerifyJob { message: vec![1], pubkey: vec![0; 32], signature: vec![0; 7856] };
    let junk = GuestBatch { jobs: vec![job] };
    assert_eq!(verify_batch(GuestScheme::SlhDsa128s, &junk), (1, 0));
}

