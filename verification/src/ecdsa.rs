//! ECDSA over secp256k1 (the Bitcoin/Ethereum curve, a classical baseline)
//! through `k256`.
use vstd::prelude::*;
use k256::ecdsa::signature::Signer;
use k256::ecdsa::signature::Verifier;
use k256::elliptic_curve::Generate;
use getrandom::SysRng;

verus! {

/// A secp256k1 ECDSA signing key. `k256` names it only as an alias of a
/// generic type of the `ecdsa` crate, which Verus cannot declare from here,
/// so the key is held opaquely.
#[verifier::external_body]
pub struct EcdsaSigningKey {
    key: k256::ecdsa::SigningKey,
}

/// A secp256k1 ECDSA verifying key, held opaquely (see `EcdsaSigningKey`).
#[verifier::external_body]
pub struct EcdsaVerifyingKey {
    key: k256::ecdsa::VerifyingKey,
}

/// A secp256k1 ECDSA signature, held opaquely (see `EcdsaSigningKey`).
#[verifier::external_body]
pub struct EcdsaSignature {
    sig: k256::ecdsa::Signature,
}

/// A fresh signing key from the operating system's random source
/// (`Generate::try_generate_from_rng` over `SysRng`); `None` when that source
/// fails. Nothing is stated of the key: it is random.
#[verifier::external_body]
pub(crate) fn ecdsa_generate() -> (r: Option<EcdsaSigningKey>) {
    match k256::ecdsa::SigningKey::try_generate_from_rng(&mut SysRng) {
        Ok(key) => Some(EcdsaSigningKey { key }),
        Err(_) => None,
    }
}

/// The verifying key of `sk` (`SigningKey::verifying_key`, copied).
#[verifier::external_body]
pub(crate) fn ecdsa_verifying_key(sk: &EcdsaSigningKey) -> (r: EcdsaVerifyingKey) {
    EcdsaVerifyingKey { key: *sk.key.verifying_key() }
}

/// The SEC1 compressed encoding of a verifying key
/// (`to_sec1_point(true).as_bytes()`): a tag byte and the 32-byte
/// x-coordinate. Only the length is stated: the key is opaque here.
#[verifier::external_body]
pub(crate) fn ecdsa_compressed_key_bytes(vk: &EcdsaVerifyingKey) -> (r: Vec<u8>)
    ensures
        r@.len() == 33,
{
    vk.key.to_sec1_point(true).as_bytes().to_vec()
}

/// The RFC 6979 deterministic signature of `msg` (`Signer::sign`).
#[verifier::external_body]
pub(crate) fn ecdsa_sign(sk: &EcdsaSigningKey, msg: &[u8]) -> (r: EcdsaSignature) {
    EcdsaSignature { sig: sk.key.sign(msg) }
}

/// The fixed-width `r || s` encoding of a signature (`Signature::to_bytes`):
/// 64 bytes. Only the length is stated.
#[verifier::external_body]
pub(crate) fn ecdsa_signature_bytes(sig: &EcdsaSignature) -> (r: Vec<u8>)
    ensures
        r@.len() == 64,
{
    sig.sig.to_bytes().to_vec()
}

/// Whether `sig` verifies over `msg` under `vk` (`Verifier::verify` is
/// `Ok`). Not stated: the key and signature are opaque here.
#[verifier::external_body]
pub(crate) fn ecdsa_verify(vk: &EcdsaVerifyingKey, msg: &[u8], sig: &EcdsaSignature) -> (r: bool) {
    vk.key.verify(msg, &sig.sig).is_ok()
}

/// Whether `VerifyingKey::from_sec1_bytes(pk)` and `Signature::from_slice(sig)`
/// both decode and `Verifier::verify` accepts the signature over `msg`: a
/// function of the three byte strings.
pub uninterp spec fn ecdsa_accepts_spec(pk: Seq<u8>, msg: Seq<u8>, sig: Seq<u8>) -> bool;

/// Decodes the SEC1 key `pk` and the `r || s` signature `sig`, and verifies
/// `sig` over `msg`; false when either does not decode.
#[verifier::external_body]
pub(crate) fn ecdsa_accepts(pk: &[u8], msg: &[u8], sig: &[u8]) -> (r: bool)
    ensures
        r == ecdsa_accepts_spec(pk@, msg@, sig@),
{
    match (k256::ecdsa::VerifyingKey::from_sec1_bytes(pk), k256::ecdsa::Signature::from_slice(sig)) {
        (Ok(vk), Ok(s)) => vk.verify(msg, &s).is_ok(),
        _ => false,
    }
}

} // verus!
