//! ML-DSA-44 (FIPS 204, lattice) through the `fips204` crate: key
//! generation, signing and verification with the empty context string.
use vstd::prelude::*;
use fips204::ml_dsa_44;
use fips204::traits::SerDes;
use fips204::traits::Signer;
use fips204::traits::Verifier;

verus! {

/// An ML-DSA-44 public key. `fips204` names its key types only through
/// aliases of a generic type in a private module, which Verus cannot
/// declare, so the key is held opaquely here.
#[verifier::external_body]
pub struct MlDsa44PublicKey {
    key: ml_dsa_44::PublicKey,
}

/// An ML-DSA-44 private key, held opaquely (see `MlDsa44PublicKey`).
#[verifier::external_body]
pub struct MlDsa44PrivateKey {
    key: ml_dsa_44::PrivateKey,
}

/// Whether `ml_dsa_44::PublicKey::try_from_bytes(pk)` followed by
/// `verify(msg, sig, b"")` accepts: a function of the three byte strings.
pub uninterp spec fn mldsa44_accepts_spec(pk: Seq<u8>, msg: Seq<u8>, sig: Seq<u8>) -> bool;

/// Public key length of ML-DSA-44 (`ml_dsa_44::PK_LEN`).
#[verifier::external_body]
pub(crate) fn mldsa44_pk_len() -> (r: usize)
    ensures
        r == 1312,
{
    ml_dsa_44::PK_LEN
}

/// Signature length of ML-DSA-44 (`ml_dsa_44::SIG_LEN`).
#[verifier::external_body]
pub(crate) fn mldsa44_sig_len() -> (r: usize)
    ensures
        r == 2420,
{
    ml_dsa_44::SIG_LEN
}

/// A fresh key pair from the operating system's random source
/// (`ml_dsa_44::try_keygen`); `Err` when that source fails. Nothing is
/// stated of the keys: they are random.
#[verifier::external_body]
pub(crate) fn mldsa44_keygen() -> (r: Result<(MlDsa44PublicKey, MlDsa44PrivateKey), &'static str>) {
    match ml_dsa_44::try_keygen() {
        Ok((pk, sk)) => Ok((MlDsa44PublicKey { key: pk }, MlDsa44PrivateKey { key: sk })),
        Err(e) => Err(e),
    }
}

/// The 1312-byte encoding of a public key (`SerDes::into_bytes` on a clone).
/// Nothing is stated of the bytes: the key is opaque here.
#[verifier::external_body]
pub(crate) fn mldsa44_public_key_bytes(pk: &MlDsa44PublicKey) -> (r: [u8; 1312]) {
    pk.key.clone().into_bytes()
}

/// A signature of `msg` with the empty context (`Signer::try_sign`); `Err`
/// when the random source fails. Nothing more is stated: signing draws fresh
/// randomness.
#[verifier::external_body]
pub(crate) fn mldsa44_sign(sk: &MlDsa44PrivateKey, msg: &[u8]) -> (r: Result<[u8; 2420], &'static str>) {
    sk.key.try_sign(msg, b"")
}

/// Whether `sig` is a valid signature of `msg` under `pk` with the empty
/// context (`Verifier::verify`). Not stated: the key is opaque here.
#[verifier::external_body]
pub(crate) fn mldsa44_verify(pk: &MlDsa44PublicKey, msg: &[u8], sig: &[u8; 2420]) -> (r: bool) {
    pk.key.verify(msg, sig, b"")
}

/// Decodes `pk` (`PublicKey::try_from_bytes`) and verifies `sig` over `msg`
/// with the empty context; false when the key does not decode.
#[verifier::external_body]
pub(crate) fn mldsa44_accepts(pk: &[u8], msg: &[u8], sig: &[u8]) -> (r: bool)
    requires
        pk@.len() == 1312,
        sig@.len() == 2420,
    ensures
        r == mldsa44_accepts_spec(pk@, msg@, sig@),
{
    let pk: [u8; 1312] = pk.try_into().unwrap();
    let sig: [u8; 2420] = sig.try_into().unwrap();
    match ml_dsa_44::PublicKey::try_from_bytes(pk) {
        Ok(key) => key.verify(msg, &sig, b""),
        Err(_) => false,
    }
}

} // verus!
