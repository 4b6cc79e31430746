//! SLH-DSA (FIPS 205, hash based) through the `fips205` crate, SHA2 variants
//! at the 128-bit level: key generation, signing and verification.
//!
//! Signing is hedged (randomized), the FIPS 205 default, with the empty
//! context string a chain would use.
use vstd::prelude::*;
use fips205::slh_dsa_sha2_128f;
use fips205::slh_dsa_sha2_128s;
use fips205::traits::SerDes;
use fips205::traits::Signer;
use fips205::traits::Verifier;

verus! {

#[verifier::external_type_specification]
#[verifier::external_body]
pub struct ExSlh128sPublicKey(slh_dsa_sha2_128s::PublicKey);

#[verifier::external_type_specification]
#[verifier::external_body]
pub struct ExSlh128sPrivateKey(slh_dsa_sha2_128s::PrivateKey);

#[verifier::external_type_specification]
#[verifier::external_body]
pub struct ExSlh128fPublicKey(slh_dsa_sha2_128f::PublicKey);

#[verifier::external_type_specification]
#[verifier::external_body]
pub struct ExSlh128fPrivateKey(slh_dsa_sha2_128f::PrivateKey);

/// Whether `slh_dsa_sha2_128s::PublicKey::try_from_bytes(pk)` followed by
/// `verify(msg, sig, b"")` accepts: a function of the three byte strings.
pub uninterp spec fn slh128s_accepts_spec(pk: Seq<u8>, msg: Seq<u8>, sig: Seq<u8>) -> bool;

/// Whether `slh_dsa_sha2_128f::PublicKey::try_from_bytes(pk)` followed by
/// `verify(msg, sig, b"")` accepts: a function of the three byte strings.
pub uninterp spec fn slh128f_accepts_spec(pk: Seq<u8>, msg: Seq<u8>, sig: Seq<u8>) -> bool;

/// Public key length of SLH-DSA-SHA2-128s (`slh_dsa_sha2_128s::PK_LEN`).
#[verifier::external_body]
pub(crate) fn slh128s_pk_len() -> (r: usize)
    ensures
        r == 32,
{
    slh_dsa_sha2_128s::PK_LEN
}

/// Signature length of SLH-DSA-SHA2-128s (`slh_dsa_sha2_128s::SIG_LEN`).
#[verifier::external_body]
pub(crate) fn slh128s_sig_len() -> (r: usize)
    ensures
        r == 7856,
{
    slh_dsa_sha2_128s::SIG_LEN
}

/// A fresh key pair from the operating system's random source
/// (`slh_dsa_sha2_128s::try_keygen`); `Err` when that source fails.
/// Nothing is stated of the keys: they are random.
#[verifier::external_body]
pub(crate) fn slh128s_keygen() -> (r: Result<(slh_dsa_sha2_128s::PublicKey, slh_dsa_sha2_128s::PrivateKey), &'static str>) {
    slh_dsa_sha2_128s::try_keygen()
}

/// The 32-byte encoding of a public key (`SerDes::into_bytes` on a clone).
/// Nothing is stated of the bytes: the key is opaque here.
#[verifier::external_body]
pub(crate) fn slh128s_public_key_bytes(pk: &slh_dsa_sha2_128s::PublicKey) -> (r: [u8; 32]) {
    pk.clone().into_bytes()
}

/// A hedged signature of `msg` with the empty context (`Signer::try_sign`
/// with `hedged = true`); `Err` when the random source fails. The signature
/// depends on fresh randomness, so nothing more is stated.
#[verifier::external_body]
pub(crate) fn slh128s_sign(sk: &slh_dsa_sha2_128s::PrivateKey, msg: &[u8]) -> (r: Result<[u8; 7856], &'static str>) {
    sk.try_sign(msg, b"", true)
}

/// Whether `sig` is a valid signature of `msg` under `pk` with the empty
/// context (`Verifier::verify`). Not stated: the key object is opaque here.
#[verifier::external_body]
pub(crate) fn slh128s_verify(pk: &slh_dsa_sha2_128s::PublicKey, msg: &[u8], sig: &[u8; 7856]) -> (r: bool) {
    pk.verify(msg, sig, b"")
}

/// Decodes `pk` (`PublicKey::try_from_bytes`) and verifies `sig` over `msg`
/// with the empty context; false when the key does not decode.
#[verifier::external_body]
pub(crate) fn slh128s_accepts(pk: &[u8], msg: &[u8], sig: &[u8]) -> (r: bool)
    requires
        pk@.len() == 32,
        sig@.len() == 7856,
    ensures
        r == slh128s_accepts_spec(pk@, msg@, sig@),
{
    let pk: [u8; 32] = pk.try_into().unwrap();
    let sig: [u8; 7856] = sig.try_into().unwrap();
    match slh_dsa_sha2_128s::PublicKey::try_from_bytes(&pk) {
        Ok(key) => key.verify(msg, &sig, b""),
        Err(_) => false,
    }
}

/// Public key length of SLH-DSA-SHA2-128f (`slh_dsa_sha2_128f::PK_LEN`).
#[verifier::external_body]
pub(crate) fn slh128f_pk_len() -> (r: usize)
    ensures
        r == 32,
{
    slh_dsa_sha2_128f::PK_LEN
}

/// Signature length of SLH-DSA-SHA2-128f (`slh_dsa_sha2_128f::SIG_LEN`).
#[verifier::external_body]
pub(crate) fn slh128f_sig_len() -> (r: usize)
    ensures
        r == 17088,
{
    slh_dsa_sha2_128f::SIG_LEN
}

/// A fresh key pair (`slh_dsa_sha2_128f::try_keygen`); `Err` when the random
/// source fails. Nothing is stated of the keys: they are random.
#[verifier::external_body]
pub(crate) fn slh128f_keygen() -> (r: Result<(slh_dsa_sha2_128f::PublicKey, slh_dsa_sha2_128f::PrivateKey), &'static str>) {
    slh_dsa_sha2_128f::try_keygen()
}

/// The 32-byte encoding of a public key (`SerDes::into_bytes` on a clone).
/// Nothing is stated of the bytes: the key is opaque here.
#[verifier::external_body]
pub(crate) fn slh128f_public_key_bytes(pk: &slh_dsa_sha2_128f::PublicKey) -> (r: [u8; 32]) {
    pk.clone().into_bytes()
}

/// A hedged signature of `msg` with the empty context; `Err` when the random
/// source fails. Nothing more is stated: it depends on fresh randomness.
#[verifier::external_body]
pub(crate) fn slh128f_sign(sk: &slh_dsa_sha2_128f::PrivateKey, msg: &[u8]) -> (r: Result<[u8; 17088], &'static str>) {
    sk.try_sign(msg, b"", true)
}

/// Whether `sig` is a valid signature of `msg` under `pk` with the empty
/// context (`Verifier::verify`). Not stated: the key object is opaque here.
#[verifier::external_body]
pub(crate) fn slh128f_verify(pk: &slh_dsa_sha2_128f::PublicKey, msg: &[u8], sig: &[u8; 17088]) -> (r: bool) {
    pk.verify(msg, sig, b"")
}

/// Decodes `pk` (`PublicKey::try_from_bytes`) and verifies `sig` over `msg`
/// with the empty context; false when the key does not decode.
#[verifier::external_body]
pub(crate) fn slh128f_accepts(pk: &[u8], msg: &[u8], sig: &[u8]) -> (r: bool)
    requires
        pk@.len() == 32,
        sig@.len() == 17088,
    ensures
        r == slh128f_accepts_spec(pk@, msg@, sig@),
{
    let pk: [u8; 32] = pk.try_into().unwrap();
    let sig: [u8; 17088] = sig.try_into().unwrap();
    match slh_dsa_sha2_128f::PublicKey::try_from_bytes(&pk) {
        Ok(key) => key.verify(msg, &sig, b""),
        Err(_) => false,
    }
}

} // verus!
