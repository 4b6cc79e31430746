//! Falcon-512 / FN-DSA (NIST selected, lattice) through `fn-dsa`. Signatures
//! are over the raw message with no domain context.
//!
//! `fn-dsa` draws its randomness through an infallible `RngCore`, and the
//! operating system's `OsRng` panics when the source fails. So each key
//! generation and each signature first draws a 32-byte seed from `OsRng`
//! with the fallible `try_fill_bytes`, and `fn-dsa` draws from a ChaCha20
//! stream keyed by that seed.
use vstd::prelude::*;
use std::cell::RefCell;
use fn_dsa::sign_key_size;
use fn_dsa::signature_size;
use fn_dsa::vrfy_key_size;
use fn_dsa::KeyPairGenerator;
use fn_dsa::KeyPairGeneratorStandard;
use fn_dsa::SigningKey;
use fn_dsa::SigningKey512;
use fn_dsa::VerifyingKey;
use fn_dsa::VerifyingKeyStandard;
use fn_dsa::DOMAIN_NONE;
use fn_dsa::FN_DSA_LOGN_512;
use fn_dsa::HASH_ID_RAW;
use rand_core::OsRng;
use rand_core::RngCore;
use rand_core::SeedableRng;
use rand_chacha::ChaCha20Rng;

verus! {

#[verifier::external_type_specification]
#[verifier::external_body]
pub struct ExFalconVerifyingKey(VerifyingKeyStandard);

/// A decoded Falcon-512 signing key (degree 512 only). `fn-dsa` signs
/// through `&mut self`, and a timed closure may not capture a mutable borrow,
/// so the key sits in a `RefCell` that only the signing call borrows.
#[verifier::external_body]
pub struct FalconSigner {
    key: RefCell<SigningKey512>,
}

/// Whether `VerifyingKeyStandard::decode(vk)` succeeds and `verify` accepts
/// `sig` over the raw message `msg` with no context: a function of the three
/// byte strings.
pub uninterp spec fn falcon512_accepts_spec(vk: Seq<u8>, msg: Seq<u8>, sig: Seq<u8>) -> bool;

/// A fresh Falcon-512 key pair, encoded (`KeyPairGeneratorStandard::keygen`
/// with `logn = 9`, drawing from a ChaCha20 stream keyed by 32 bytes of
/// `OsRng::try_fill_bytes`): the signing key (`sign_key_size(9)` = 1345
/// bytes) and the verifying key (`vrfy_key_size(9)` = 897 bytes); `None`
/// when the random source fails. Only the lengths are stated: the keys are
/// random.
#[verifier::external_body]
pub(crate) fn falcon512_keygen() -> (r: Option<(Vec<u8>, Vec<u8>)>)
    ensures
        r matches Some(k) ==> k.0@.len() == 1345 && k.1@.len() == 897,
{
    let mut seed = [0u8; 32];
    if OsRng.try_fill_bytes(&mut seed).is_err() {
        return None;
    }
    let mut sk = vec![0u8; sign_key_size(FN_DSA_LOGN_512)];
    let mut vk = vec![0u8; vrfy_key_size(FN_DSA_LOGN_512)];
    let mut kg = KeyPairGeneratorStandard::default();
    kg.keygen(FN_DSA_LOGN_512, &mut ChaCha20Rng::from_seed(seed), &mut sk, &mut vk);
    Some((sk, vk))
}

/// Decodes an encoded degree-512 signing key (`SigningKey512::decode`);
/// `None` when it is not a valid key of that degree. Not stated which keys
/// decode.
#[verifier::external_body]
pub(crate) fn falcon512_decode_signer(sk: &[u8]) -> (r: Option<FalconSigner>) {
    match SigningKey512::decode(sk) {
        Some(key) => Some(FalconSigner { key: RefCell::new(key) }),
        None => None,
    }
}

/// Decodes an encoded verifying key (`VerifyingKeyStandard::decode`); `None`
/// when it is not a valid key. Not stated which keys decode.
#[verifier::external_body]
pub(crate) fn falcon512_decode_verifier(vk: &[u8]) -> (r: Option<VerifyingKeyStandard>) {
    VerifyingKeyStandard::decode(vk)
}

/// A signature of the raw message `msg` with no context (`sign` into a
/// `signature_size(9)` = 666-byte buffer, drawing from a ChaCha20 stream
/// keyed by 32 bytes of `OsRng::try_fill_bytes`); the flag is whether `sign`
/// reported success. `None` when the random source fails. Only the length
/// is stated: signing is randomized.
#[verifier::external_body]
pub(crate) fn falcon512_sign(signer: &FalconSigner, msg: &[u8]) -> (r: Option<(bool, Vec<u8>)>)
    ensures
        r matches Some(s) ==> s.1@.len() == 666,
{
    let mut seed = [0u8; 32];
    if OsRng.try_fill_bytes(&mut seed).is_err() {
        return None;
    }
    let mut sig = vec![0u8; signature_size(FN_DSA_LOGN_512)];
    let mut rng = ChaCha20Rng::from_seed(seed);
    let done = signer.key.borrow_mut().sign(&mut rng, &DOMAIN_NONE, &HASH_ID_RAW, msg, &mut sig);
    Some((done.is_some(), sig))
}

/// Whether `sig` verifies over the raw message `msg` under `vk` with no
/// context (`VerifyingKey::verify`). Not stated: the key is opaque here.
#[verifier::external_body]
pub(crate) fn falcon512_verify(vk: &VerifyingKeyStandard, msg: &[u8], sig: &[u8]) -> (r: bool) {
    vk.verify(sig, &DOMAIN_NONE, &HASH_ID_RAW, msg)
}

/// Decodes `vk` and verifies `sig` over the raw message `msg` with no
/// context; false when the key does not decode.
#[verifier::external_body]
pub(crate) fn falcon512_accepts(vk: &[u8], msg: &[u8], sig: &[u8]) -> (r: bool)
    ensures
        r == falcon512_accepts_spec(vk@, msg@, sig@),
{
    match VerifyingKeyStandard::decode(vk) {
        Some(key) => key.verify(sig, &DOMAIN_NONE, &HASH_ID_RAW, msg),
        None => false,
    }
}

} // verus!
