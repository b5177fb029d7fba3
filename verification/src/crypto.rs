//! The cryptographic primitives the library relies on: SHA-256 and
//! Ed25519 (RFC 8032) signing and strict verification.
//!
//! Their results are named rather than written out: each name below stands
//! for what the primitive computes on its arguments, and the library's
//! contracts speak of those names.

use vstd::prelude::*;

verus! {

/// The SHA-256 digest of `data` (32 bytes).
pub uninterp spec fn sha256(data: Seq<u8>) -> Seq<u8>;

/// The Ed25519 public key (32 bytes) of the secret seed `seed`.
pub uninterp spec fn ed25519_public(seed: Seq<u8>) -> Seq<u8>;

/// The Ed25519 signature (64 bytes) of `msg` under the secret seed `seed`.
pub uninterp spec fn ed25519_signature(seed: Seq<u8>, msg: Seq<u8>) -> Seq<u8>;

/// What `ed25519_dalek::VerifyingKey::from_bytes` gives for the 32 bytes
/// `pk`: `None` when they decode as a public key, else its error's text.
pub uninterp spec fn ed25519_key_error(pk: Seq<u8>) -> Option<Seq<char>>;

/// Whether the 32 bytes `pk` encode a usable Ed25519 public key.
pub open spec fn ed25519_key_ok(pk: Seq<u8>) -> bool {
    ed25519_key_error(pk) is None
}

/// What `VerifyingKey::verify_strict` gives for the signature `sig` of
/// `msg` under the decoded public key `pk`: `None` when it verifies by the
/// strict rules (canonical encodings, no weak keys), else its error's text.
pub uninterp spec fn ed25519_verify_error(pk: Seq<u8>, msg: Seq<u8>, sig: Seq<u8>) -> Option<Seq<char>>;

/// Whether `sig` is a valid Ed25519 signature of `msg` under the public key
/// `pk`: the key decodes and the signature verifies strictly.
pub open spec fn ed25519_verifies(pk: Seq<u8>, msg: Seq<u8>, sig: Seq<u8>) -> bool {
    ed25519_key_ok(pk) && ed25519_verify_error(pk, msg, sig) is None
}

/// SHA-256 of `data`.
///
/// Calls `sha2::Sha256::digest`; the result is the digest of `data`.
#[verifier::external_body]
pub(crate) fn sha256_digest(data: &[u8]) -> (r: [u8; 32])
    ensures
        r@ == sha256(data@),
{
    <sha2::Sha256 as sha2::Digest>::digest(data).into()
}

/// The public key of the secret seed `seed`.
///
/// Calls `ed25519_dalek::SigningKey::from_bytes`, `verifying_key` and
/// `VerifyingKey::to_bytes`; the result is the public key of `seed`.
#[verifier::external_body]
pub(crate) fn public_key_of(seed: &[u8; 32]) -> (r: [u8; 32])
    ensures
        r@ == ed25519_public(seed@),
{
    ed25519_dalek::SigningKey::from_bytes(seed).verifying_key().to_bytes()
}

/// The signature of `msg` under the secret seed `seed`.
///
/// Calls `ed25519_dalek::SigningKey::from_bytes`, `Signer::sign` and
/// `Signature::to_bytes`. Ed25519 signing is deterministic, so the result
/// is a function of `seed` and `msg`.
#[verifier::external_body]
pub(crate) fn sign(seed: &[u8; 32], msg: &[u8]) -> (r: [u8; 64])
    ensures
        r@ == ed25519_signature(seed@, msg@),
{
    ed25519_dalek::Signer::sign(&ed25519_dalek::SigningKey::from_bytes(seed), msg).to_bytes()
}

/// Checks that `pk` decodes as an Ed25519 public key.
///
/// Calls `ed25519_dalek::VerifyingKey::from_bytes`: `None` when it
/// succeeds, else the text of its error: what [`ed25519_key_error`]
/// names.
#[verifier::external_body]
pub(crate) fn public_key_error(pk: &[u8; 32]) -> (r: Option<String>)
    ensures
        r is None <==> ed25519_key_error(pk@) is None,
        r matches Some(m) ==> ed25519_key_error(pk@) == Some(m@),
{
    match ed25519_dalek::VerifyingKey::from_bytes(pk) {
        Ok(_) => None,
        Err(e) => Some(e.to_string()),
    }
}

/// Strictly verifies the signature `sig` of `msg` under the public key `pk`.
///
/// Calls `ed25519_dalek::VerifyingKey::from_bytes`, then
/// `Signature::from_bytes` and `VerifyingKey::verify_strict`: `Ok` when the
/// key decodes and the signature verifies, else the text of the error: the
/// key's decoding error ([`ed25519_key_error`]) when it does not decode,
/// else the verification error ([`ed25519_verify_error`]).
#[verifier::external_body]
pub(crate) fn verify_strict(pk: &[u8; 32], msg: &[u8], sig: &[u8; 64]) -> (r: Result<(), String>)
    ensures
        r is Ok <==> ed25519_verifies(pk@, msg@, sig@),
        r matches Err(m) ==> m@ == (if ed25519_key_ok(pk@) {
            ed25519_verify_error(pk@, msg@, sig@)->0
        } else {
            ed25519_key_error(pk@)->0
        }),
{
    match ed25519_dalek::VerifyingKey::from_bytes(pk) {
        Ok(k) => k.verify_strict(msg, &ed25519_dalek::Signature::from_bytes(sig)).map_err(
            |e| e.to_string(),
        ),
        Err(e) => Err(e.to_string()),
    }
}

/// A fresh 32-byte Ed25519 secret seed from the operating system.
///
/// Calls `ed25519_dalek::SigningKey::generate` with `rand::rngs::OsRng`;
/// nothing is claimed of the bytes.
#[verifier::external_body]
pub(crate) fn random_seed() -> (r: [u8; 32]) {
    ed25519_dalek::SigningKey::generate(&mut rand::rngs::OsRng).to_bytes()
}

} // verus!
