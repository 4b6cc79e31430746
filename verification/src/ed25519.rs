//! Ed25519 (RFC 8032, the classical baseline) through `ed25519-dalek`.
use vstd::prelude::*;
use ed25519_dalek::Signature;
use ed25519_dalek::Signer;
use ed25519_dalek::SigningKey;
use ed25519_dalek::Verifier;
use ed25519_dalek::VerifyingKey;

verus! {

#[verifier::external_type_specification]
#[verifier::external_body]
pub struct ExEd25519SigningKey(SigningKey);

#[verifier::external_type_specification]
#[verifier::external_body]
pub struct ExEd25519VerifyingKey(VerifyingKey);

#[verifier::external_type_specification]
#[verifier::external_body]
pub struct ExEd25519Signature(Signature);

/// Whether `VerifyingKey::from_bytes(pk)` succeeds and `Verifier::verify`
/// accepts `Signature::from_bytes(sig)` over `msg`: a function of the three
/// byte strings.
pub uninterp spec fn ed25519_accepts_spec(pk: Seq<u8>, msg: Seq<u8>, sig: Seq<u8>) -> bool;

/// A fresh signing key: 32 secret bytes from the operating system's random
/// source (`getrandom::fill`) made into a key by `SigningKey::from_bytes`,
/// which is what `SigningKey::generate` does; `None` when the random source
/// fails. Nothing is stated of the key: it is random.
#[verifier::external_body]
pub(crate) fn ed25519_generate() -> (r: Option<SigningKey>) {
    let mut secret = [0u8; 32];
    match getrandom::fill(&mut secret) {
        Ok(()) => Some(SigningKey::from_bytes(&secret)),
        Err(_) => None,
    }
}

/// The verifying key of `sk` (`SigningKey::verifying_key`). Not stated: the
/// keys are opaque here.
#[verifier::external_body]
pub(crate) fn ed25519_verifying_key(sk: &SigningKey) -> (r: VerifyingKey) {
    sk.verifying_key()
}

/// The 32-byte encoding of a verifying key (`VerifyingKey::to_bytes`). Not
/// stated: the key is opaque here.
#[verifier::external_body]
pub(crate) fn ed25519_verifying_key_bytes(vk: &VerifyingKey) -> (r: [u8; 32]) {
    vk.to_bytes()
}

/// The deterministic RFC 8032 signature of `msg` (`Signer::sign`). Not
/// stated: the key is opaque here.
#[verifier::external_body]
pub(crate) fn ed25519_sign(sk: &SigningKey, msg: &[u8]) -> (r: Signature) {
    sk.sign(msg)
}

/// The 64-byte encoding of a signature (`Signature::to_bytes`). Not stated:
/// the signature is opaque here.
#[verifier::external_body]
pub(crate) fn ed25519_signature_bytes(sig: &Signature) -> (r: [u8; 64]) {
    sig.to_bytes()
}

/// Whether `sig` verifies over `msg` under `vk` (`Verifier::verify` is
/// `Ok`). Not stated: the key and signature are opaque here.
#[verifier::external_body]
pub(crate) fn ed25519_verify(vk: &VerifyingKey, msg: &[u8], sig: &Signature) -> (r: bool) {
    vk.verify(msg, sig).is_ok()
}

/// Decodes `pk` and `sig` and verifies `sig` over `msg`; false when the key
/// does not decode.
#[verifier::external_body]
pub(crate) fn ed25519_accepts(pk: &[u8], msg: &[u8], sig: &[u8]) -> (r: bool)
    requires
        pk@.len() == 32,
        sig@.len() == 64,
    ensures
        r == ed25519_accepts_spec(pk@, msg@, sig@),
{
    let pk: [u8; 32] = pk.try_into().unwrap();
    let sig: [u8; 64] = sig.try_into().unwrap();
    match VerifyingKey::from_bytes(&pk) {
        Ok(vk) => vk.verify(msg, &Signature::from_bytes(&sig)).is_ok(),
        Err(_) => false,
    }
}

} // verus!
