//! Ed25519 key handling for the audit log.
//!
//! The secret seed leaves the keypair only inside a [`SecretBytes`].

use vstd::prelude::*;

use crate::audit::error::AuditError;
use crate::crypto::{ed25519_key_error, ed25519_key_ok, ed25519_public, ed25519_signature, public_key_error, public_key_of, random_seed, sign};
use crate::hex::{decode, decode_error_ok, encode, hex_decoded, hex_encoded, hex_ok, to_array32};
use crate::primitives::secret::SecretBytes;
use crate::text::{push_str, string_of};
use vstd::string::StringSliceAdditionalSpecFns;

verus! {

/// An Ed25519 keypair used to sign audit entries, held as its 32-byte
/// secret seed.
pub struct AuditKeypair {
    seed: [u8; 32],
}

impl View for AuditKeypair {
    type V = Seq<u8>;

    closed spec fn view(&self) -> Seq<u8> {
        self.seed@
    }
}

impl AuditKeypair {
    /// A fresh keypair from the operating system's generator.
    pub fn generate() -> (r: AuditKeypair)
        ensures
            r@.len() == 32,
    {
        AuditKeypair { seed: random_seed() }
    }

    /// The keypair with the given 32-byte secret seed.
    pub fn from_secret_bytes(seed: &[u8; 32]) -> (r: AuditKeypair)
        ensures
            r@ == seed@,
    {
        AuditKeypair { seed: *seed }
    }

    /// The keypair whose secret seed is written in hex by `seed_hex`.
    ///
    /// Fails with `Hex` when the text is not hex, and with `Crypto` when it
    /// does not hold exactly 32 bytes.
    pub fn from_secret_hex(seed_hex: &str) -> (r: Result<AuditKeypair, AuditError>)
        ensures
            r is Ok <==> hex_ok(seed_hex.spec_bytes()) && hex_decoded(seed_hex.spec_bytes()).len() == 32,
            r matches Ok(k) ==> k@ == hex_decoded(seed_hex.spec_bytes()),
            r matches Err(AuditError::Hex(m)) ==> !hex_ok(seed_hex.spec_bytes()) && decode_error_ok(seed_hex.spec_bytes(), m@),
            r matches Err(AuditError::Crypto(m)) ==> m@ == "secret seed must be 32 bytes"@,
            r is Err ==> r matches Err(AuditError::Hex(_)) || r matches Err(AuditError::Crypto(_)),
    {
        let raw = match decode(seed_hex) {
            Ok(v) => v,
            Err(m) => {
                return Err(AuditError::Hex(m));
            },
        };
        if raw.len() != 32 {
            return Err(AuditError::Crypto(crate::text::owned("secret seed must be 32 bytes")));
        }
        let seed = to_array32(raw.as_slice());
        Ok(AuditKeypair { seed })
    }

    /// The 32-byte secret seed, in a secret container.
    pub fn secret_bytes(&self) -> (r: SecretBytes)
        ensures
            r@ == self@,
    {
        let mut v: Vec<u8> = Vec::new();
        let mut i: usize = 0;
        while i < 32
            invariant
                i <= 32,
                self.seed@.len() == 32,
                v@ == self.seed@.take(i as int),
            decreases 32 - i,
        {
            v.push(self.seed[i]);
            i = i + 1;
            assert(v@ =~= self.seed@.take(i as int));
        }
        assert(self.seed@.take(32) =~= self.seed@);
        SecretBytes::new(v)
    }

    /// The public verifying key.
    pub fn verifying_key(&self) -> (r: [u8; 32])
        ensures
            r@ == ed25519_public(self@),
    {
        public_key_of(&self.seed)
    }

    /// The public verifying key in hex (64 characters).
    pub fn public_hex(&self) -> (r: String)
        ensures
            r@ == hex_encoded(ed25519_public(self@)),
    {
        let pk = public_key_of(&self.seed);
        encode(pk.as_slice())
    }

    /// Signs `message`, giving the 64-byte signature.
    pub fn sign(&self, message: &[u8]) -> (r: [u8; 64])
        ensures
            r@ == ed25519_signature(self@, message@),
    {
        sign(&self.seed, message)
    }
}

/// The outcome of reading the 32-byte public key written in hex by the
/// bytes `text`.
pub open spec fn key_text_ok(text: Seq<u8>) -> bool {
    hex_ok(text) && hex_decoded(text).len() == 32 && ed25519_key_ok(hex_decoded(text))
}

/// The message prefix for a public key that does not decode.
pub open spec fn invalid_key_prefix() -> Seq<char> {
    "invalid Ed25519 public key: "@
}

/// Parses a hex-encoded 32-byte Ed25519 public key.
///
/// Fails with `Hex` when the text is not hex, with `Crypto` when it does
/// not hold exactly 32 bytes, and with `Crypto` when those bytes are not a
/// usable public key.
pub fn verifying_key_from_hex(public_hex: &str) -> (r: Result<[u8; 32], AuditError>)
    ensures
        r is Ok <==> key_text_ok(public_hex.spec_bytes()),
        r matches Ok(k) ==> k@ == hex_decoded(public_hex.spec_bytes()),
        r matches Err(e) ==> key_error_ok(public_hex.spec_bytes(), e),
{
    let raw = match decode(public_hex) {
        Ok(v) => v,
        Err(m) => {
            return Err(AuditError::Hex(m));
        },
    };
    if raw.len() != 32 {
        return Err(AuditError::Crypto(crate::text::owned("public key must be 32 bytes")));
    }
    let bytes = to_array32(raw.as_slice());
    match public_key_error(&bytes) {
        None => Ok(bytes),
        Some(e) => {
            let mut v: Vec<char> = Vec::new();
            push_str(&mut v, "invalid Ed25519 public key: ");
            push_str(&mut v, e.as_str());
            Err(AuditError::Crypto(string_of(v.as_slice())))
        },
    }
}

/// The error [`verifying_key_from_hex`] gives for the bytes `text`.
pub open spec fn key_error_ok(text: Seq<u8>, e: AuditError) -> bool {
    if !hex_ok(text) {
        e matches AuditError::Hex(m) && decode_error_ok(text, m@)
    } else if hex_decoded(text).len() != 32 {
        e matches AuditError::Crypto(m) && m@ == "public key must be 32 bytes"@
    } else {
        e matches AuditError::Crypto(m) && m@ == invalid_key_prefix() + ed25519_key_error(hex_decoded(text))->0
    }
}

} // verus!
