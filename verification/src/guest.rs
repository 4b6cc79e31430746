//! Signature batches for the zkVM lanes: the host signs N canonical messages
//! with fresh keys, and the guest verifies every (message, key, signature)
//! job and reports the batch size with the number that verified.
use vstd::prelude::*;
use crate::ed25519;
use crate::falcon;
use crate::ml_dsa;
use crate::slh_dsa;
use crate::schemes::canonical_message;
use crate::schemes::canonical_message_bytes;
use crate::schemes::BenchError;
use crate::text::str_eq;
use crate::ed25519::ed25519_accepts_spec;
use crate::falcon::falcon512_accepts_spec;
use crate::ml_dsa::mldsa44_accepts_spec;
use crate::slh_dsa::slh128s_accepts_spec;

verus! {

/// One signature verification job. Byte vectors rather than fixed arrays;
/// the guest checks the lengths where the scheme fixes them.
pub struct VerifyJob {
    /// The exact bytes that were signed (the canonical transaction preimage).
    pub message: Vec<u8>,
    pub pubkey: Vec<u8>,
    pub signature: Vec<u8>,
}

/// The batch the host hands to a guest.
pub struct GuestBatch {
    pub jobs: Vec<VerifyJob>,
}

/// The signature scheme a guest verifies.
#[derive(Debug, Clone, Copy, PartialEq, Eq, Structural)]
pub enum GuestScheme {
    Ed25519,
    Falcon512,
    MlDsa44,
    SlhDsa128s,
}

/// The guest scheme behind a lane's scheme name: the accelerated Ed25519
/// build verifies the same jobs as the stock one.
pub open spec fn guest_scheme_text(name: Seq<char>) -> Option<GuestScheme> {
    if name == "ed25519"@ || name == "ed25519accel"@ {
        Some(GuestScheme::Ed25519)
    } else if name == "falcon512"@ {
        Some(GuestScheme::Falcon512)
    } else if name == "mldsa44"@ {
        Some(GuestScheme::MlDsa44)
    } else if name == "slhdsa128s"@ {
        Some(GuestScheme::SlhDsa128s)
    } else {
        None
    }
}

/// Public key length the host produces for `s`.
pub open spec fn pubkey_len(s: GuestScheme) -> int {
    match s {
        GuestScheme::Ed25519 => 32,
        GuestScheme::Falcon512 => 897,
        GuestScheme::MlDsa44 => 1312,
        GuestScheme::SlhDsa128s => 32,
    }
}

/// Signature length the host produces for `s`.
pub open spec fn signature_len(s: GuestScheme) -> int {
    match s {
        GuestScheme::Ed25519 => 64,
        GuestScheme::Falcon512 => 666,
        GuestScheme::MlDsa44 => 2420,
        GuestScheme::SlhDsa128s => 7856,
    }
}

/// `j` is a job the host built for `s`: a key and signature of the scheme's
/// sizes, over the canonical message of that key.
pub open spec fn is_signed_job(s: GuestScheme, j: VerifyJob) -> bool {
    &&& j.pubkey@.len() == pubkey_len(s)
    &&& j.signature@.len() == signature_len(s)
    &&& j.message@ == canonical_message_bytes(j.pubkey@)
}

/// `b` holds `n` jobs built for `s`.
pub open spec fn is_batch_for(s: GuestScheme, b: GuestBatch, n: u32) -> bool {
    &&& b.jobs@.len() == n
    &&& forall|i: int| 0 <= i < n ==> #[trigger] is_signed_job(s, b.jobs@[i])
}

/// Whether the guest for `s` counts `j` as verified. Ed25519, ML-DSA-44 and
/// SLH-DSA-128s skip a key or signature of the wrong length; Falcon hands
/// both to the decoder and verifier as they are.
pub open spec fn job_accepted(s: GuestScheme, j: VerifyJob) -> bool {
    match s {
        GuestScheme::Ed25519 => j.pubkey@.len() == 32 && j.signature@.len() == 64
            && ed25519_accepts_spec(j.pubkey@, j.message@, j.signature@),
        GuestScheme::Falcon512 => falcon512_accepts_spec(j.pubkey@, j.message@, j.signature@),
        GuestScheme::MlDsa44 => j.pubkey@.len() == 1312 && j.signature@.len() == 2420
            && mldsa44_accepts_spec(j.pubkey@, j.message@, j.signature@),
        GuestScheme::SlhDsa128s => j.pubkey@.len() == 32 && j.signature@.len() == 7856
            && slh128s_accepts_spec(j.pubkey@, j.message@, j.signature@),
    }
}

/// The number of `true` entries of `flags`.
pub open spec fn count_true(flags: Seq<bool>) -> nat
    decreases flags.len(),
{
    if flags.len() == 0 {
        0
    } else {
        count_true(flags.drop_last()) + if flags.last() { 1nat } else { 0nat }
    }
}

/// The per-job verdicts of the guest for `s`.
pub open spec fn verdicts(s: GuestScheme, jobs: Seq<VerifyJob>) -> Seq<bool> {
    Seq::new(jobs.len(), |i: int| job_accepted(s, jobs[i]))
}

/// The verified count the guest for `s` commits for `jobs`.
pub open spec fn verified_count(s: GuestScheme, jobs: Seq<VerifyJob>) -> nat {
    count_true(verdicts(s, jobs))
}

/// No more entries are true than there are entries.
pub proof fn lemma_count_true_bounded(flags: Seq<bool>)
    ensures
        count_true(flags) <= flags.len(),
    decreases flags.len(),
{
    if flags.len() > 0 {
        lemma_count_true_bounded(flags.drop_last());
    }
}

/// Every entry is true exactly when the count of true entries is the length.
pub proof fn lemma_count_true_all(flags: Seq<bool>)
    ensures
        count_true(flags) == flags.len() <==> forall|i: int| 0 <= i < flags.len() ==> #[trigger] flags[i],
    decreases flags.len(),
{
    if flags.len() > 0 {
        let init = flags.drop_last();
        lemma_count_true_all(init);
        lemma_count_true_bounded(init);
        if count_true(flags) == flags.len() {
            assert forall|i: int| 0 <= i < flags.len() implies #[trigger] flags[i] by {
                if i < flags.len() - 1 {
                    assert(init[i] == flags[i]);
                }
            }
        }
        if forall|i: int| 0 <= i < flags.len() ==> #[trigger] flags[i] {
            assert forall|i: int| 0 <= i < init.len() implies #[trigger] init[i] by {
                assert(flags[i]);
            }
            assert(flags[flags.len() - 1]);
        }
    }
}

/// A guest never reports more verified signatures than the batch holds, and
/// it reports the whole batch exactly when every job verifies: the host's
/// check that `verified == n` attests that all N signatures are valid.
pub proof fn lemma_full_count_means_every_job_verified(s: GuestScheme, jobs: Seq<VerifyJob>)
    ensures
        verified_count(s, jobs) <= jobs.len(),
        verified_count(s, jobs) == jobs.len() <==> forall|i: int| 0 <= i < jobs.len() ==> #[trigger] job_accepted(s, jobs[i]),
{
    let v = verdicts(s, jobs);
    lemma_count_true_bounded(v);
    lemma_count_true_all(v);
    if verified_count(s, jobs) == jobs.len() {
        assert forall|i: int| 0 <= i < jobs.len() implies #[trigger] job_accepted(s, jobs[i]) by {
            assert(v[i]);
        }
    }
    if forall|i: int| 0 <= i < jobs.len() ==> #[trigger] job_accepted(s, jobs[i]) {
        assert forall|i: int| 0 <= i < v.len() implies #[trigger] v[i] by {
            assert(job_accepted(s, jobs[i]));
        }
    }
}

/// The answer of the verifier of scheme `s` on signature `sig` over `msg`
/// under the encoded key `pk`.
pub open spec fn verifier_accepts(s: GuestScheme, pk: Seq<u8>, msg: Seq<u8>, sig: Seq<u8>) -> bool {
    match s {
        GuestScheme::Ed25519 => ed25519_accepts_spec(pk, msg, sig),
        GuestScheme::Falcon512 => falcon512_accepts_spec(pk, msg, sig),
        GuestScheme::MlDsa44 => mldsa44_accepts_spec(pk, msg, sig),
        GuestScheme::SlhDsa128s => slh128s_accepts_spec(pk, msg, sig),
    }
}

/// Each guest counts a job exactly when the job's key and signature have
/// the sizes of its scheme (Falcon takes any sizes) and the scheme's own
/// verifier accepts the signature over the job's message.
pub proof fn lemma_guest_counts_what_its_verifier_accepts(j: VerifyJob)
    ensures
        job_accepted(GuestScheme::Ed25519, j) <==> (j.pubkey@.len() == 32 && j.signature@.len() == 64
            && ed25519_accepts_spec(j.pubkey@, j.message@, j.signature@)),
        job_accepted(GuestScheme::Falcon512, j) <==> falcon512_accepts_spec(j.pubkey@, j.message@, j.signature@),
        job_accepted(GuestScheme::MlDsa44, j) <==> (j.pubkey@.len() == 1312 && j.signature@.len() == 2420
            && mldsa44_accepts_spec(j.pubkey@, j.message@, j.signature@)),
        job_accepted(GuestScheme::SlhDsa128s, j) <==> (j.pubkey@.len() == 32 && j.signature@.len() == 7856
            && slh128s_accepts_spec(j.pubkey@, j.message@, j.signature@)),
{
}

/// On a batch the host built for `s`, the guest reports every job as
/// verified exactly when the verifier of `s` accepts every job: a batch of
/// valid signatures is attested in full, and one refused signature is
/// enough to withhold it.
pub proof fn lemma_built_batch_counts_its_valid_signatures(s: GuestScheme, b: GuestBatch, n: u32)
    requires
        is_batch_for(s, b, n),
    ensures
        verified_count(s, b.jobs@) == n <==> forall|i: int| 0 <= i < n
            ==> #[trigger] verifier_accepts(s, b.jobs@[i].pubkey@, b.jobs@[i].message@, b.jobs@[i].signature@),
{
    lemma_full_count_means_every_job_verified(s, b.jobs@);
    assert forall|i: int| 0 <= i < n implies (job_accepted(s, b.jobs@[i])
        <==> #[trigger] verifier_accepts(s, b.jobs@[i].pubkey@, b.jobs@[i].message@, b.jobs@[i].signature@)) by {
        assert(is_signed_job(s, b.jobs@[i]));
        lemma_guest_counts_what_its_verifier_accepts(b.jobs@[i]);
    }
    if verified_count(s, b.jobs@) == n {
        assert forall|i: int| 0 <= i < n implies #[trigger] verifier_accepts(s, b.jobs@[i].pubkey@, b.jobs@[i].message@, b.jobs@[i].signature@) by {
            assert(job_accepted(s, b.jobs@[i]));
        }
    }
    if forall|i: int| 0 <= i < n ==> #[trigger] verifier_accepts(s, b.jobs@[i].pubkey@, b.jobs@[i].message@, b.jobs@[i].signature@) {
        assert forall|i: int| 0 <= i < b.jobs@.len() implies #[trigger] job_accepted(s, b.jobs@[i]) by {
            assert(verifier_accepts(s, b.jobs@[i].pubkey@, b.jobs@[i].message@, b.jobs@[i].signature@));
        }
    }
}

/// The guest scheme a lane's scheme name selects; `None` for a name no
/// guest verifies.
pub fn guest_scheme(name: &str) -> (r: Option<GuestScheme>)
    ensures
        r == guest_scheme_text(name@),
{
    if str_eq(name, "ed25519") || str_eq(name, "ed25519accel") {
        Some(GuestScheme::Ed25519)
    } else if str_eq(name, "falcon512") {
        Some(GuestScheme::Falcon512)
    } else if str_eq(name, "mldsa44") {
        Some(GuestScheme::MlDsa44)
    } else if str_eq(name, "slhdsa128s") {
        Some(GuestScheme::SlhDsa128s)
    } else {
        None
    }
}

/// The guest's verdict on one job.
fn job_passes(s: GuestScheme, job: &VerifyJob) -> (r: bool)
    ensures
        r == job_accepted(s, *job),
{
    match s {
        GuestScheme::Ed25519 => job.pubkey.len() == 32 && job.signature.len() == 64
            && ed25519::ed25519_accepts(job.pubkey.as_slice(), job.message.as_slice(), job.signature.as_slice()),
        GuestScheme::Falcon512 => falcon::falcon512_accepts(job.pubkey.as_slice(), job.message.as_slice(), job.signature.as_slice()),
        GuestScheme::MlDsa44 => job.pubkey.len() == 1312 && job.signature.len() == 2420
            && ml_dsa::mldsa44_accepts(job.pubkey.as_slice(), job.message.as_slice(), job.signature.as_slice()),
        GuestScheme::SlhDsa128s => job.pubkey.len() == 32 && job.signature.len() == 7856
            && slh_dsa::slh128s_accepts(job.pubkey.as_slice(), job.message.as_slice(), job.signature.as_slice()),
    }
}

/// What a guest commits for per-job verdicts `verdicts`: the batch size and
/// the number of jobs that verified.
pub fn tally(verdicts: &[bool]) -> (r: (u32, u32))
    requires
        verdicts@.len() <= u32::MAX,
    ensures
        r.0 == verdicts@.len(),
        r.1 == count_true(verdicts@),
{
    let n = verdicts.len();
    let mut verified: u32 = 0;
    let mut i: usize = 0;
    while i < n
        invariant
            n == verdicts@.len(),
            n <= u32::MAX,
            i <= n,
            verified == count_true(verdicts@.take(i as int)),
        decreases n - i,
    {
        proof {
            assert(verdicts@.take(i + 1).drop_last() =~= verdicts@.take(i as int));
            lemma_count_true_bounded(verdicts@.take(i as int));
        }
        if verdicts[i] {
            verified = verified + 1;
        }
        i = i + 1;
    }
    assert(verdicts@.take(n as int) =~= verdicts@);
    (n as u32, verified)
}

/// The guest program for `s`: verifies every job of `batch` and commits the
/// batch size and the number of jobs that verified.
pub fn verify_batch(s: GuestScheme, batch: &GuestBatch) -> (r: (u32, u32))
    requires
        batch.jobs@.len() <= u32::MAX,
    ensures
        r.0 == batch.jobs@.len(),
        r.1 == verified_count(s, batch.jobs@),
{
    let mut flags: Vec<bool> = Vec::with_capacity(batch.jobs.len());
    let mut i: usize = 0;
    while i < batch.jobs.len()
        invariant
            i <= batch.jobs@.len(),
            flags@ =~= verdicts(s, batch.jobs@).take(i as int),
        decreases batch.jobs@.len() - i,
    {
        let ok = job_passes(s, &batch.jobs[i]);
        flags.push(ok);
        i = i + 1;
    }
    assert(flags@ =~= verdicts(s, batch.jobs@));
    tally(flags.as_slice())
}

/// `n` Ed25519 jobs, each with a fresh key signing its canonical message.
/// `Err` when the random source fails.
pub fn build_ed25519(n: u32) -> (r: Result<GuestBatch, BenchError>)
    ensures
        r matches Ok(b) ==> is_batch_for(GuestScheme::Ed25519, b, n),
        r matches Err(e) ==> e == BenchError::KeyGeneration,
        n == 0 ==> r is Ok,
{
    let mut jobs: Vec<VerifyJob> = Vec::new();
    let mut k: u32 = 0;
    while k < n
        invariant
            k <= n,
            jobs@.len() == k,
            forall|i: int| 0 <= i < k ==> #[trigger] is_signed_job(GuestScheme::Ed25519, jobs@[i]),
        decreases n - k,
    {
        let sk = match ed25519::ed25519_generate() {
            Some(sk) => sk,
            None => return Err(BenchError::KeyGeneration),
        };
        let vk = ed25519::ed25519_verifying_key(&sk);
        let pubkey = ed25519::ed25519_verifying_key_bytes(&vk);
        let message = canonical_message(pubkey.as_slice());
        let sig = ed25519::ed25519_sign(&sk, message.as_slice());
        let signature = ed25519::ed25519_signature_bytes(&sig);
        let job = VerifyJob {
            message,
            pubkey: vstd::slice::slice_to_vec(pubkey.as_slice()),
            signature: vstd::slice::slice_to_vec(signature.as_slice()),
        };
        jobs.push(job);
        k = k + 1;
    }
    Ok(GuestBatch { jobs })
}

/// `n` Falcon-512 jobs, each with a fresh key pair signing the raw canonical
/// message of its verifying key. `Err` when the random source fails or a
/// fresh signing key does not decode.
pub fn build_falcon512(n: u32) -> (r: Result<GuestBatch, BenchError>)
    ensures
        r matches Ok(b) ==> is_batch_for(GuestScheme::Falcon512, b, n),
        r matches Err(e) ==> e == BenchError::KeyGeneration || e == BenchError::KeyDecoding || e == BenchError::Signing,
        n == 0 ==> r is Ok,
{
    let mut jobs: Vec<VerifyJob> = Vec::new();
    let mut k: u32 = 0;
    while k < n
        invariant
            k <= n,
            jobs@.len() == k,
            forall|i: int| 0 <= i < k ==> #[trigger] is_signed_job(GuestScheme::Falcon512, jobs@[i]),
        decreases n - k,
    {
        let (sk_buf, vk_buf) = match falcon::falcon512_keygen() {
            Some(keys) => keys,
            None => return Err(BenchError::KeyGeneration),
        };
        let message = canonical_message(vk_buf.as_slice());
        let signer = match falcon::falcon512_decode_signer(sk_buf.as_slice()) {
            Some(signer) => signer,
            None => return Err(BenchError::KeyDecoding),
        };
        let signature = match falcon::falcon512_sign(&signer, message.as_slice()) {
            Some((_, signature)) => signature,
            None => return Err(BenchError::Signing),
        };
        jobs.push(VerifyJob { message, pubkey: vk_buf, signature });
        k = k + 1;
    }
    Ok(GuestBatch { jobs })
}

/// `n` ML-DSA-44 jobs, each with a fresh key pair signing its canonical
/// message with the empty context. `Err` when key generation or signing
/// fails.
pub fn build_mldsa44(n: u32) -> (r: Result<GuestBatch, BenchError>)
    ensures
        r matches Ok(b) ==> is_batch_for(GuestScheme::MlDsa44, b, n),
        r matches Err(e) ==> e == BenchError::KeyGeneration || e == BenchError::Signing,
        n == 0 ==> r is Ok,
{
    let mut jobs: Vec<VerifyJob> = Vec::new();
    let mut k: u32 = 0;
    while k < n
        invariant
            k <= n,
            jobs@.len() == k,
            forall|i: int| 0 <= i < k ==> #[trigger] is_signed_job(GuestScheme::MlDsa44, jobs@[i]),
        decreases n - k,
    {
        let (pk, sk) = match ml_dsa::mldsa44_keygen() {
            Ok(keys) => keys,
            Err(_) => return Err(BenchError::KeyGeneration),
        };
        let pubkey = ml_dsa::mldsa44_public_key_bytes(&pk);
        let message = canonical_message(pubkey.as_slice());
        let sig = match ml_dsa::mldsa44_sign(&sk, message.as_slice()) {
            Ok(sig) => sig,
            Err(_) => return Err(BenchError::Signing),
        };
        let job = VerifyJob {
            message,
            pubkey: vstd::slice::slice_to_vec(pubkey.as_slice()),
            signature: vstd::slice::slice_to_vec(sig.as_slice()),
        };
        jobs.push(job);
        k = k + 1;
    }
    Ok(GuestBatch { jobs })
}

/// `n` SLH-DSA-SHA2-128s jobs, each with a fresh key pair signing its
/// canonical message (hedged, empty context). `Err` when key generation or
/// signing fails.
pub fn build_slhdsa128s(n: u32) -> (r: Result<GuestBatch, BenchError>)
    ensures
        r matches Ok(b) ==> is_batch_for(GuestScheme::SlhDsa128s, b, n),
        r matches Err(e) ==> e == BenchError::KeyGeneration || e == BenchError::Signing,
        n == 0 ==> r is Ok,
{
    let mut jobs: Vec<VerifyJob> = Vec::new();
    let mut k: u32 = 0;
    while k < n
        invariant
            k <= n,
            jobs@.len() == k,
            forall|i: int| 0 <= i < k ==> #[trigger] is_signed_job(GuestScheme::SlhDsa128s, jobs@[i]),
        decreases n - k,
    {
        let (pk, sk) = match slh_dsa::slh128s_keygen() {
            Ok(keys) => keys,
            Err(_) => return Err(BenchError::KeyGeneration),
        };
        let pubkey = slh_dsa::slh128s_public_key_bytes(&pk);
        let message = canonical_message(pubkey.as_slice());
        let sig = match slh_dsa::slh128s_sign(&sk, message.as_slice()) {
            Ok(sig) => sig,
            Err(_) => return Err(BenchError::Signing),
        };
        let job = VerifyJob {
            message,
            pubkey: vstd::slice::slice_to_vec(pubkey.as_slice()),
            signature: vstd::slice::slice_to_vec(sig.as_slice()),
        };
        jobs.push(job);
        k = k + 1;
    }
    Ok(GuestBatch { jobs })
}

/// `n` jobs for the guest that `scheme` names, signed on the host.
pub fn build_batch(scheme: &str, n: u32) -> (r: Result<GuestBatch, BenchError>)
    requires
        guest_scheme_text(scheme@) is Some,
    ensures
        r matches Ok(b) ==> is_batch_for(guest_scheme_text(scheme@)->0, b, n),
        n == 0 ==> r is Ok,
        r matches Err(e) ==> match guest_scheme_text(scheme@)->0 {
            GuestScheme::Ed25519 => e == BenchError::KeyGeneration,
            GuestScheme::Falcon512 => e == BenchError::KeyGeneration || e == BenchError::KeyDecoding || e == BenchError::Signing,
            GuestScheme::MlDsa44 => e == BenchError::KeyGeneration || e == BenchError::Signing,
            GuestScheme::SlhDsa128s => e == BenchError::KeyGeneration || e == BenchError::Signing,
        },
{
    match guest_scheme(scheme) {
        Some(GuestScheme::Ed25519) => build_ed25519(n),
        Some(GuestScheme::Falcon512) => build_falcon512(n),
        Some(GuestScheme::MlDsa44) => build_mldsa44(n),
        Some(GuestScheme::SlhDsa128s) => build_slhdsa128s(n),
        None => vstd::pervasive::unreached(),
    }
}

} // verus!
