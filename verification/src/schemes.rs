//! Signature schemes under measurement: the iteration policy, the canonical
//! message every scheme signs, and the per-scheme measurement record.
use vstd::prelude::*;
use crate::stats::Timing;
use crate::stats::TimeSpan;
use crate::stats::measure_bounded;
use crate::tx_format::FIXED_FIELD_BYTES;
use crate::tx_format::preimage_bytes;
use crate::tx_format::signing_preimage;
use crate::tx_format::lemma_preimage_is_unambiguous;
use crate::stats::is_sorted;
use crate::stats::timing_of;
use crate::stats::seq_sum;
use crate::slh_dsa;
use crate::ed25519::ed25519_accepts_spec;
use crate::ecdsa::ecdsa_accepts_spec;
use crate::falcon::falcon512_accepts_spec;
use crate::ml_dsa::mldsa44_accepts_spec;
use crate::slh_dsa::slh128s_accepts_spec;
use crate::slh_dsa::slh128f_accepts_spec;
use crate::ml_dsa;
use crate::ed25519;
use crate::ecdsa;
use crate::falcon;

verus! {

/// Which family a scheme belongs to. Used for grouping on the dashboard.
#[derive(Debug, Clone, Copy, PartialEq, Eq, Structural)]
pub enum Family {
    Classical,
    Lattice,
    Hash,
}

/// Measured results for one scheme.
#[derive(Debug, Clone)]
pub struct SchemeMeasurement {
    pub scheme: String,
    pub family: Family,
    /// Standardization status, stated precisely and never overstated.
    pub standard: String,
    /// Which crate produced these numbers, so a reader can reproduce them.
    pub implementation: String,
    pub pubkey_bytes: usize,
    pub sig_bytes: usize,
    pub keygen: Timing,
    pub sign: Timing,
    pub verify: Timing,
}

/// Iteration policy: `min_iterations` is a hard floor; above it sampling goes
/// on up to `max_iterations` only while the per-operation budget lasts.
#[derive(Debug, Clone, Copy)]
pub struct Budget {
    pub warmup: usize,
    pub min_iterations: usize,
    pub max_iterations: usize,
    pub per_op_budget: TimeSpan,
}

impl Default for Budget {
    /// The publication policy: 10 warmup iterations, at least 100 and at most
    /// 1000 measured iterations, 20 seconds per operation.
    fn default() -> (r: Self)
        ensures
            r.warmup == 10,
            r.min_iterations == 100,
            r.max_iterations == 1000,
            r.per_op_budget.nanos == 20_000_000_000,
    {
        Budget { warmup: 10, min_iterations: 100, max_iterations: 1000, per_op_budget: TimeSpan::from_secs(20) }
    }
}

impl Budget {
    /// Development pass. Not for publication: it drops below the N >= 100
    /// floor (2 warmup, 10 to 25 iterations, 3 seconds per operation).
    pub fn quick() -> (r: Self)
        ensures
            r.warmup == 2,
            r.min_iterations == 10,
            r.max_iterations == 25,
            r.per_op_budget.nanos == 3_000_000_000,
    {
        Budget { warmup: 2, min_iterations: 10, max_iterations: 25, per_op_budget: TimeSpan::from_secs(3) }
    }

    /// A policy that `measure_bounded` accepts.
    pub open spec fn is_valid(&self) -> bool {
        self.min_iterations > 0 && self.max_iterations >= self.min_iterations
    }

    /// Times `f` under this policy.
    pub fn run<T, F: Fn() -> T>(&self, f: F) -> (r: Timing)
        requires
            self.is_valid(),
            call_requires(f, ()),
        ensures
            self.min_iterations <= r.iterations <= self.max_iterations,
            self.per_op_budget.nanos == 0 ==> r.iterations == self.min_iterations,
            exists|taken: Seq<u64>, s: Seq<u64>| #![trigger taken.to_multiset(), s.to_multiset()]
                taken.len() == r.iterations && s.to_multiset() == taken.to_multiset() && crate::stats::is_sorted(s)
                && r == crate::stats::timing_of(s, self.warmup)
                && (r.iterations > self.min_iterations ==> crate::stats::seq_sum(taken.drop_last()) < self.per_op_budget.nanos),
            r.warmup_iterations == self.warmup,
            exists|s: Seq<u64>| s.len() == r.iterations && crate::stats::is_sorted(s) && r == crate::stats::timing_of(s, self.warmup),
    {
        measure_bounded(self.warmup, self.min_iterations, self.max_iterations, self.per_op_budget, f)
    }
}

/// The message every scheme signs for a key `pubkey`: the transaction
/// signing preimage with version 1, nonce 42, a `0xAB`-filled destination,
/// amount 1,000,000, fee 1,000 and a zeroed payload hash.
pub open spec fn canonical_message_bytes(pubkey: Seq<u8>) -> Seq<u8> {
    preimage_bytes(1, 42, pubkey, Seq::new(32, |i: int| 0xABu8), 1_000_000, 1_000, Seq::new(32, |i: int| 0u8))
}

/// The canonical message every scheme signs, built from the transaction
/// signing preimage so the measured cost corresponds to a real transaction.
pub fn canonical_message(pubkey: &[u8]) -> (r: Vec<u8>)
    requires
        FIXED_FIELD_BYTES + pubkey@.len() <= usize::MAX,
    ensures
        r@ == canonical_message_bytes(pubkey@),
        r@.len() == FIXED_FIELD_BYTES + pubkey@.len(),
{
    let to_address = [0xABu8; 32];
    let payload_hash = [0u8; 32];
    assert(to_address@ =~= Seq::new(32, |i: int| 0xABu8));
    assert(payload_hash@ =~= Seq::new(32, |i: int| 0u8));
    signing_preimage(1, 42, pubkey, &to_address, 1_000_000, 1_000, &payload_hash)
}

/// Different keys give different canonical messages, whatever their
/// lengths: the message determines the key it was built for.
pub proof fn lemma_canonical_message_injective(a: Seq<u8>, b: Seq<u8>)
    requires
        canonical_message_bytes(a) == canonical_message_bytes(b),
    ensures
        a == b,
{
    vstd::bytes::lemma_auto_spec_u64_to_from_le_bytes();
    if a.len() == b.len() {
        let to = Seq::new(32, |i: int| 0xABu8);
        let payload = Seq::new(32, |i: int| 0u8);
        lemma_preimage_is_unambiguous(1, 42, a, to, 1_000_000, 1_000, payload, 1, 42, b, to, 1_000_000, 1_000, payload);
    } else {
        assert(canonical_message_bytes(a).len() == 89 + a.len());
        assert(canonical_message_bytes(b).len() == 89 + b.len());
    }
}

/// Why a scheme could not be measured. The measurement is never taken on a
/// path that does not actually verify.
#[derive(Debug, Clone, Copy, PartialEq, Eq, Structural)]
pub enum BenchError {
    /// Key generation failed (the random source failed).
    KeyGeneration,
    /// Signing failed (the random source failed).
    Signing,
    /// A freshly encoded key did not decode.
    KeyDecoding,
    /// The signature did not verify, so the path is not benchmarked.
    Rejected,
}

/// `t` summarizes between `b.min_iterations` and `b.max_iterations` samples
/// taken after `b.warmup` discarded iterations.
pub open spec fn is_budgeted_timing(t: Timing, b: Budget) -> bool {
    &&& b.min_iterations <= t.iterations <= b.max_iterations
    &&& t.warmup_iterations == b.warmup
    &&& (b.per_op_budget.nanos == 0 ==> t.iterations == b.min_iterations)
    &&& exists|taken: Seq<u64>, s: Seq<u64>| #![trigger taken.to_multiset(), s.to_multiset()]
        taken.len() == t.iterations && s.to_multiset() == taken.to_multiset() && is_sorted(s)
        && t == timing_of(s, b.warmup)
        && (t.iterations > b.min_iterations ==> seq_sum(taken.drop_last()) < b.per_op_budget.nanos)
    &&& exists|s: Seq<u64>| s.len() == t.iterations && is_sorted(s) && t == timing_of(s, b.warmup)
}

/// `m` describes scheme `name` of `family`, standardized as `standard` and
/// implemented by `implementation`, with the given key and signature sizes,
/// each operation timed under budget `b`.
pub open spec fn is_measurement_of(
    m: SchemeMeasurement,
    name: Seq<char>,
    family: Family,
    standard: Seq<char>,
    implementation: Seq<char>,
    pubkey_bytes: int,
    sig_bytes: int,
    b: Budget,
) -> bool {
    &&& m.scheme@ == name
    &&& m.family == family
    &&& m.standard@ == standard
    &&& m.implementation@ == implementation
    &&& m.pubkey_bytes == pubkey_bytes
    &&& m.sig_bytes == sig_bytes
    &&& is_budgeted_timing(m.keygen, b)
    &&& is_budgeted_timing(m.sign, b)
    &&& is_budgeted_timing(m.verify, b)
}

/// The schemes measured natively, each through its outside crate.
#[derive(Debug, Clone, Copy, PartialEq, Eq, Structural)]
pub enum BenchScheme {
    Ed25519,
    EcdsaSecp256k1,
    MlDsa44,
    SlhDsaSha2128s,
    SlhDsaSha2128f,
    Falcon512,
}

/// Whether the verifier of scheme `s` accepts signature `sig` over `msg`
/// under the encoded public key `pk`.
pub open spec fn accepts(s: BenchScheme, pk: Seq<u8>, msg: Seq<u8>, sig: Seq<u8>) -> bool {
    match s {
        BenchScheme::Ed25519 => ed25519_accepts_spec(pk, msg, sig),
        BenchScheme::EcdsaSecp256k1 => ecdsa_accepts_spec(pk, msg, sig),
        BenchScheme::MlDsa44 => mldsa44_accepts_spec(pk, msg, sig),
        BenchScheme::SlhDsaSha2128s => slh128s_accepts_spec(pk, msg, sig),
        BenchScheme::SlhDsaSha2128f => slh128f_accepts_spec(pk, msg, sig),
        BenchScheme::Falcon512 => falcon512_accepts_spec(pk, msg, sig),
    }
}

/// The correctness gate passed: the verifier of `s` accepted a signature of
/// `sig_len` bytes over the canonical message of a key of `pk_len` bytes.
pub open spec fn gate_passed(s: BenchScheme, pk_len: int, sig_len: int) -> bool {
    exists|pk: Seq<u8>, sig: Seq<u8>|
        pk.len() == pk_len && sig.len() == sig_len && #[trigger] accepts(s, pk, canonical_message_bytes(pk), sig)
}

/// The correctness gate failed: the verifier of `s` refused a signature of
/// `sig_len` bytes over the canonical message of a key of `pk_len` bytes.
pub open spec fn gate_failed(s: BenchScheme, pk_len: int, sig_len: int) -> bool {
    exists|pk: Seq<u8>, sig: Seq<u8>|
        pk.len() == pk_len && sig.len() == sig_len && !#[trigger] accepts(s, pk, canonical_message_bytes(pk), sig)
}

/// Why a run stops before it is measured, from the outcome of each step in
/// order: key generation, decoding the fresh key, signing, and the verifier's
/// answer on the fresh signature. The first step that failed decides, and a
/// step that was never reached counts as not failed; `None` when every step
/// succeeded, and only then is the path benchmarked.
pub open spec fn gate_outcome_spec(keys_ok: bool, decoded: bool, signed: bool, accepted: bool) -> Option<BenchError> {
    if !keys_ok {
        Some(BenchError::KeyGeneration)
    } else if !decoded {
        Some(BenchError::KeyDecoding)
    } else if !signed {
        Some(BenchError::Signing)
    } else if !accepted {
        Some(BenchError::Rejected)
    } else {
        None
    }
}

/// The error a run stops with, if any, given the outcome of each step (see
/// `gate_outcome_spec`).
pub fn gate_outcome(keys_ok: bool, decoded: bool, signed: bool, accepted: bool) -> (r: Option<BenchError>)
    ensures
        r == gate_outcome_spec(keys_ok, decoded, signed, accepted),
{
    if !keys_ok {
        Some(BenchError::KeyGeneration)
    } else if !decoded {
        Some(BenchError::KeyDecoding)
    } else if !signed {
        Some(BenchError::Signing)
    } else if !accepted {
        Some(BenchError::Rejected)
    } else {
        None
    }
}

/// SLH-DSA-SHA2-128s (FIPS 205, `fips205`): keygen, hedged sign and verify
/// over the canonical message of a fresh key, measured only after that
/// key's signature verified.
pub fn bench_slh_dsa_sha2_128s(budget: Budget) -> (r: Result<SchemeMeasurement, BenchError>)
    requires
        budget.is_valid(),
    ensures
        r matches Ok(m) ==> is_measurement_of(m, "slh-dsa-sha2-128s"@, Family::Hash, "NIST FIPS 205"@, "fips205"@, 32, 7856, budget),
        r is Ok ==> gate_passed(BenchScheme::SlhDsaSha2128s, 32, 7856),
        r matches Err(e) ==> e == BenchError::KeyGeneration || e == BenchError::Signing || e == BenchError::Rejected,
        r == Err::<SchemeMeasurement, BenchError>(BenchError::Rejected) ==> gate_failed(BenchScheme::SlhDsaSha2128s, 32, 7856),
{
    let (pk, sk) = match slh_dsa::slh128s_keygen() {
        Ok(keys) => keys,
        Err(_) => return Err(gate_outcome(false, true, true, true).unwrap()),
    };
    let pubkey_bytes = slh_dsa::slh128s_public_key_bytes(&pk);
    let msg = canonical_message(pubkey_bytes.as_slice());
    let sig = match slh_dsa::slh128s_sign(&sk, msg.as_slice()) {
        Ok(sig) => sig,
        Err(_) => return Err(gate_outcome(true, true, false, true).unwrap()),
    };
    // Correctness gate: never benchmark a path that does not actually verify.
    let accepted = slh_dsa::slh128s_accepts(pubkey_bytes.as_slice(), msg.as_slice(), sig.as_slice());
    let ghost (p, g) = (pubkey_bytes@, sig@);
    if let Some(e) = gate_outcome(true, true, true, accepted) {
        assert(!accepts(BenchScheme::SlhDsaSha2128s, p, canonical_message_bytes(p), g));
        return Err(e);
    }
    assert(accepts(BenchScheme::SlhDsaSha2128s, p, canonical_message_bytes(p), g));
    let keygen = budget.run(|| slh_dsa::slh128s_keygen());
    let sign = budget.run(|| slh_dsa::slh128s_sign(&sk, msg.as_slice()));
    let verify = budget.run(|| slh_dsa::slh128s_verify(&pk, msg.as_slice(), &sig));
    Ok(SchemeMeasurement {
        scheme: "slh-dsa-sha2-128s".to_owned(),
        family: Family::Hash,
        standard: "NIST FIPS 205".to_owned(),
        implementation: "fips205".to_owned(),
        pubkey_bytes: slh_dsa::slh128s_pk_len(),
        sig_bytes: slh_dsa::slh128s_sig_len(),
        keygen,
        sign,
        verify,
    })
}

/// SLH-DSA-SHA2-128f (FIPS 205, `fips205`): keygen, hedged sign and verify
/// over the canonical message of a fresh key, measured only after that
/// key's signature verified.
pub fn bench_slh_dsa_sha2_128f(budget: Budget) -> (r: Result<SchemeMeasurement, BenchError>)
    requires
        budget.is_valid(),
    ensures
        r matches Ok(m) ==> is_measurement_of(m, "slh-dsa-sha2-128f"@, Family::Hash, "NIST FIPS 205"@, "fips205"@, 32, 17088, budget),
        r is Ok ==> gate_passed(BenchScheme::SlhDsaSha2128f, 32, 17088),
        r matches Err(e) ==> e == BenchError::KeyGeneration || e == BenchError::Signing || e == BenchError::Rejected,
        r == Err::<SchemeMeasurement, BenchError>(BenchError::Rejected) ==> gate_failed(BenchScheme::SlhDsaSha2128f, 32, 17088),
{
    let (pk, sk) = match slh_dsa::slh128f_keygen() {
        Ok(keys) => keys,
        Err(_) => return Err(gate_outcome(false, true, true, true).unwrap()),
    };
    let pubkey_bytes = slh_dsa::slh128f_public_key_bytes(&pk);
    let msg = canonical_message(pubkey_bytes.as_slice());
    let sig = match slh_dsa::slh128f_sign(&sk, msg.as_slice()) {
        Ok(sig) => sig,
        Err(_) => return Err(gate_outcome(true, true, false, true).unwrap()),
    };
    let accepted = slh_dsa::slh128f_accepts(pubkey_bytes.as_slice(), msg.as_slice(), sig.as_slice());
    let ghost (p, g) = (pubkey_bytes@, sig@);
    if let Some(e) = gate_outcome(true, true, true, accepted) {
        assert(!accepts(BenchScheme::SlhDsaSha2128f, p, canonical_message_bytes(p), g));
        return Err(e);
    }
    assert(accepts(BenchScheme::SlhDsaSha2128f, p, canonical_message_bytes(p), g));
    let keygen = budget.run(|| slh_dsa::slh128f_keygen());
    let sign = budget.run(|| slh_dsa::slh128f_sign(&sk, msg.as_slice()));
    let verify = budget.run(|| slh_dsa::slh128f_verify(&pk, msg.as_slice(), &sig));
    Ok(SchemeMeasurement {
        scheme: "slh-dsa-sha2-128f".to_owned(),
        family: Family::Hash,
        standard: "NIST FIPS 205".to_owned(),
        implementation: "fips205".to_owned(),
        pubkey_bytes: slh_dsa::slh128f_pk_len(),
        sig_bytes: slh_dsa::slh128f_sig_len(),
        keygen,
        sign,
        verify,
    })
}

/// Ed25519 (RFC 8032, `ed25519-dalek`), the classical baseline: keygen, sign
/// and verify over the canonical message of a fresh key, measured only after
/// that key's signature verified.
pub fn bench_ed25519(budget: Budget) -> (r: Result<SchemeMeasurement, BenchError>)
    requires
        budget.is_valid(),
    ensures
        r matches Ok(m) ==> is_measurement_of(m, "ed25519"@, Family::Classical, "RFC 8032 (classical, not post-quantum)"@, "ed25519-dalek"@, 32, 64, budget),
        r is Ok ==> gate_passed(BenchScheme::Ed25519, 32, 64),
        r matches Err(e) ==> e == BenchError::KeyGeneration || e == BenchError::Rejected,
        r == Err::<SchemeMeasurement, BenchError>(BenchError::Rejected) ==> gate_failed(BenchScheme::Ed25519, 32, 64),
{
    let signing_key = match ed25519::ed25519_generate() {
        Some(key) => key,
        None => return Err(gate_outcome(false, true, true, true).unwrap()),
    };
    let verifying_key = ed25519::ed25519_verifying_key(&signing_key);
    let pubkey_bytes = ed25519::ed25519_verifying_key_bytes(&verifying_key);
    let msg = canonical_message(pubkey_bytes.as_slice());
    let signature = ed25519::ed25519_sign(&signing_key, msg.as_slice());
    let sig_bytes = ed25519::ed25519_signature_bytes(&signature);
    let accepted = ed25519::ed25519_accepts(pubkey_bytes.as_slice(), msg.as_slice(), sig_bytes.as_slice());
    let ghost (p, g) = (pubkey_bytes@, sig_bytes@);
    if let Some(e) = gate_outcome(true, true, true, accepted) {
        assert(!accepts(BenchScheme::Ed25519, p, canonical_message_bytes(p), g));
        return Err(e);
    }
    assert(accepts(BenchScheme::Ed25519, p, canonical_message_bytes(p), g));
    let keygen = budget.run(|| ed25519::ed25519_generate());
    let sign = budget.run(|| ed25519::ed25519_sign(&signing_key, msg.as_slice()));
    let verify = budget.run(|| ed25519::ed25519_verify(&verifying_key, msg.as_slice(), &signature));
    Ok(SchemeMeasurement {
        scheme: "ed25519".to_owned(),
        family: Family::Classical,
        standard: "RFC 8032 (classical, not post-quantum)".to_owned(),
        implementation: "ed25519-dalek".to_owned(),
        pubkey_bytes: pubkey_bytes.as_slice().len(),
        sig_bytes: sig_bytes.as_slice().len(),
        keygen,
        sign,
        verify,
    })
}

/// ECDSA over secp256k1 (`k256`), the Bitcoin/Ethereum curve: keygen, sign
/// and verify over the canonical message of the SEC1 compressed key,
/// measured only after that key's signature verified.
pub fn bench_ecdsa_secp256k1(budget: Budget) -> (r: Result<SchemeMeasurement, BenchError>)
    requires
        budget.is_valid(),
    ensures
        r matches Ok(m) ==> is_measurement_of(m, "ecdsa-secp256k1"@, Family::Classical, "SEC1 / FIPS 186-5 curve secp256k1 (classical, not post-quantum)"@, "k256"@, 33, 64, budget),
        r is Ok ==> gate_passed(BenchScheme::EcdsaSecp256k1, 33, 64),
        r matches Err(e) ==> e == BenchError::KeyGeneration || e == BenchError::Rejected,
        r == Err::<SchemeMeasurement, BenchError>(BenchError::Rejected) ==> gate_failed(BenchScheme::EcdsaSecp256k1, 33, 64),
{
    let signing_key = match ecdsa::ecdsa_generate() {
        Some(key) => key,
        None => return Err(gate_outcome(false, true, true, true).unwrap()),
    };
    let verifying_key = ecdsa::ecdsa_verifying_key(&signing_key);
    // SEC1 compressed encoding, which is what chains actually store.
    let pubkey_bytes = ecdsa::ecdsa_compressed_key_bytes(&verifying_key);
    let msg = canonical_message(pubkey_bytes.as_slice());
    let signature = ecdsa::ecdsa_sign(&signing_key, msg.as_slice());
    let sig_bytes = ecdsa::ecdsa_signature_bytes(&signature);
    let accepted = ecdsa::ecdsa_accepts(pubkey_bytes.as_slice(), msg.as_slice(), sig_bytes.as_slice());
    let ghost (p, g) = (pubkey_bytes@, sig_bytes@);
    if let Some(e) = gate_outcome(true, true, true, accepted) {
        assert(!accepts(BenchScheme::EcdsaSecp256k1, p, canonical_message_bytes(p), g));
        return Err(e);
    }
    assert(accepts(BenchScheme::EcdsaSecp256k1, p, canonical_message_bytes(p), g));
    let keygen = budget.run(|| ecdsa::ecdsa_generate());
    let sign = budget.run(|| ecdsa::ecdsa_sign(&signing_key, msg.as_slice()));
    let verify = budget.run(|| ecdsa::ecdsa_verify(&verifying_key, msg.as_slice(), &signature));
    Ok(SchemeMeasurement {
        scheme: "ecdsa-secp256k1".to_owned(),
        family: Family::Classical,
        standard: "SEC1 / FIPS 186-5 curve secp256k1 (classical, not post-quantum)".to_owned(),
        implementation: "k256".to_owned(),
        pubkey_bytes: pubkey_bytes.len(),
        sig_bytes: sig_bytes.len(),
        keygen,
        sign,
        verify,
    })
}

/// ML-DSA-44 (FIPS 204, `fips204`): keygen, sign and verify with the empty
/// context over the canonical message of a fresh key, measured only after
/// that key's signature verified.
pub fn bench_ml_dsa_44(budget: Budget) -> (r: Result<SchemeMeasurement, BenchError>)
    requires
        budget.is_valid(),
    ensures
        r matches Ok(m) ==> is_measurement_of(m, "ml-dsa-44"@, Family::Lattice, "NIST FIPS 204"@, "fips204"@, 1312, 2420, budget),
        r is Ok ==> gate_passed(BenchScheme::MlDsa44, 1312, 2420),
        r matches Err(e) ==> e == BenchError::KeyGeneration || e == BenchError::Signing || e == BenchError::Rejected,
        r == Err::<SchemeMeasurement, BenchError>(BenchError::Rejected) ==> gate_failed(BenchScheme::MlDsa44, 1312, 2420),
{
    let (pk, sk) = match ml_dsa::mldsa44_keygen() {
        Ok(keys) => keys,
        Err(_) => return Err(gate_outcome(false, true, true, true).unwrap()),
    };
    let pubkey_bytes = ml_dsa::mldsa44_public_key_bytes(&pk);
    let msg = canonical_message(pubkey_bytes.as_slice());
    let sig = match ml_dsa::mldsa44_sign(&sk, msg.as_slice()) {
        Ok(sig) => sig,
        Err(_) => return Err(gate_outcome(true, true, false, true).unwrap()),
    };
    let accepted = ml_dsa::mldsa44_accepts(pubkey_bytes.as_slice(), msg.as_slice(), sig.as_slice());
    let ghost (p, g) = (pubkey_bytes@, sig@);
    if let Some(e) = gate_outcome(true, true, true, accepted) {
        assert(!accepts(BenchScheme::MlDsa44, p, canonical_message_bytes(p), g));
        return Err(e);
    }
    assert(accepts(BenchScheme::MlDsa44, p, canonical_message_bytes(p), g));
    let keygen = budget.run(|| ml_dsa::mldsa44_keygen());
    let sign = budget.run(|| ml_dsa::mldsa44_sign(&sk, msg.as_slice()));
    let verify = budget.run(|| ml_dsa::mldsa44_verify(&pk, msg.as_slice(), &sig));
    Ok(SchemeMeasurement {
        scheme: "ml-dsa-44".to_owned(),
        family: Family::Lattice,
        standard: "NIST FIPS 204".to_owned(),
        implementation: "fips204".to_owned(),
        pubkey_bytes: ml_dsa::mldsa44_pk_len(),
        sig_bytes: ml_dsa::mldsa44_sig_len(),
        keygen,
        sign,
        verify,
    })
}

/// Falcon-512 / FN-DSA (`fn-dsa`): keygen, sign and verify over the raw
/// canonical message of a fresh verifying key, measured only after that
/// key's signature verified. FIPS 206 is not published, so the standard is
/// stated as NIST selected, never as FIPS conformant.
pub fn bench_falcon_512(budget: Budget) -> (r: Result<SchemeMeasurement, BenchError>)
    requires
        budget.is_valid(),
    ensures
        r matches Ok(m) ==> is_measurement_of(m, "falcon-512"@, Family::Lattice, "NIST selected. FIPS 206 not published as of 2026-07-23."@, "fn-dsa"@, 897, 666, budget),
        r is Ok ==> gate_passed(BenchScheme::Falcon512, 897, 666),
        r matches Err(e) ==> e == BenchError::KeyGeneration || e == BenchError::Signing || e == BenchError::KeyDecoding || e == BenchError::Rejected,
        r == Err::<SchemeMeasurement, BenchError>(BenchError::Rejected) ==> gate_failed(BenchScheme::Falcon512, 897, 666),
{
    let (sk_buf, vk_buf) = match falcon::falcon512_keygen() {
        Some(keys) => keys,
        None => return Err(gate_outcome(false, true, true, true).unwrap()),
    };
    let msg = canonical_message(vk_buf.as_slice());
    let signer = match falcon::falcon512_decode_signer(sk_buf.as_slice()) {
        Some(signer) => signer,
        None => return Err(gate_outcome(true, false, true, true).unwrap()),
    };
    let sig = match falcon::falcon512_sign(&signer, msg.as_slice()) {
        Some((_, sig)) => sig,
        None => return Err(gate_outcome(true, true, false, true).unwrap()),
    };
    let vk = match falcon::falcon512_decode_verifier(vk_buf.as_slice()) {
        Some(vk) => vk,
        None => return Err(gate_outcome(true, false, true, true).unwrap()),
    };
    let accepted = falcon::falcon512_accepts(vk_buf.as_slice(), msg.as_slice(), sig.as_slice());
    let ghost (p, g) = (vk_buf@, sig@);
    if let Some(e) = gate_outcome(true, true, true, accepted) {
        assert(!accepts(BenchScheme::Falcon512, p, canonical_message_bytes(p), g));
        return Err(e);
    }
    assert(accepts(BenchScheme::Falcon512, p, canonical_message_bytes(p), g));
    let keygen = budget.run(|| falcon::falcon512_keygen());
    let sign = budget.run(|| falcon::falcon512_sign(&signer, msg.as_slice()));
    let verify = budget.run(|| falcon::falcon512_verify(&vk, msg.as_slice(), sig.as_slice()));
    Ok(SchemeMeasurement {
        scheme: "falcon-512".to_owned(),
        family: Family::Lattice,
        standard: "NIST selected. FIPS 206 not published as of 2026-07-23.".to_owned(),
        implementation: "fn-dsa".to_owned(),
        pubkey_bytes: vk_buf.len(),
        sig_bytes: sig.len(),
        keygen,
        sign,
        verify,
    })
}

} // verus!
