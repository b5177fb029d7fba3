//! Signature verification and the verified-bundle typestate.
//!
//! Order is load-bearing: the detached signature is checked over the exact
//! bytes of the manifest file against the operator trust set; only then is
//! the manifest parsed; then the payload's SHA-256 is checked against the
//! now-authenticated manifest. Parsing is attack surface, so as little as
//! possible is done with bytes that are not yet authenticated.
//!
//! [`Authenticated`] and [`VerifiedBundle`] have no public constructor: the
//! only way to obtain one is through these checks.

use vstd::prelude::*;

use crate::bundle::args::{arg_error_ok, args_ok, first_failing, first_undeclared, validate};
use crate::bundle::error::ExecFormatError;
use crate::bundle::manifest::ExecManifest;
use crate::bundle::trust::OperatorTrust;
use crate::crypto::{ed25519_verifies, sha256, sha256_digest, verify_strict};
use crate::hex::{decode_error_ok, decode_trimmed, encode, hex_decoded, hex_encoded, hex_ok, to_array64};
use crate::text::{chars_eq, chars_of, debug_quoted, lower_all, lower_chars, string_of, trim, trim_chars};
use vstd::utf8::encode_utf8;

verus! {

/// The UTF-8 bytes of a signature text, trimmed.
pub open spec fn sig_field(text: Seq<char>) -> Seq<u8> {
    encode_utf8(trim(text))
}

/// Parses a detached signature: the hex of 64 bytes, surrounding
/// whitespace allowed.
pub fn parse_signature(signature_text: &str) -> (r: Result<[u8; 64], ExecFormatError>)
    ensures
        r is Ok <==> hex_ok(sig_field(signature_text@)) && hex_decoded(sig_field(signature_text@)).len() == 64,
        r matches Ok(b) ==> b@ == hex_decoded(sig_field(signature_text@)),
        r matches Err(e) ==> (e matches ExecFormatError::BadSignature(m) && if !hex_ok(
            sig_field(signature_text@),
        ) {
            decode_error_ok(sig_field(signature_text@), m@)
        } else {
            m@ == "signature is not 64 bytes"@
        }),
{
    let bytes = match decode_trimmed(signature_text) {
        Ok(b) => b,
        Err(m) => {
            return Err(ExecFormatError::BadSignature(m));
        },
    };
    if bytes.len() != 64 {
        return Err(ExecFormatError::BadSignature(crate::text::owned("signature is not 64 bytes")));
    }
    Ok(to_array64(bytes.as_slice()))
}

fn copy_bytes(b: &[u8]) -> (r: Vec<u8>)
    ensures
        r@ == b@,
{
    let mut copy: Vec<u8> = Vec::new();
    let mut k: usize = 0;
    while k < b.len()
        invariant
            k <= b@.len(),
            copy@ == b@.take(k as int),
        decreases b.len() - k,
    {
        copy.push(b[k]);
        k = k + 1;
        assert(copy@ =~= b@.take(k as int));
    }
    assert(b@.take(b@.len() as int) =~= b@);
    copy
}

/// Some key of `keys` verifies `sig` over `msg`.
pub open spec fn signed_by_one_of(keys: Seq<Seq<u8>>, msg: Seq<u8>, sig: Seq<u8>) -> bool {
    exists|i: int| 0 <= i < keys.len() && ed25519_verifies(#[trigger] keys[i], msg, sig)
}

/// Manifest bytes whose signature has been verified against the trust set.
#[derive(Debug, Clone)]
pub struct Authenticated {
    bytes: Vec<u8>,
}

impl Authenticated {
    /// The authenticated bytes.
    pub closed spec fn spec_bytes(&self) -> Seq<u8> {
        self.bytes@
    }

    /// The authenticated bytes, to be parsed.
    pub fn bytes(&self) -> (r: &[u8])
        ensures
            r@ == self.spec_bytes(),
    {
        self.bytes.as_slice()
    }
}

/// The hex SHA-256 of a manifest's inline payload.
pub open spec fn payload_digest(m: ExecManifest) -> Seq<char> {
    hex_encoded(sha256(encode_utf8(m.payload.inline@)))
}

/// The payload hash a manifest declares, trimmed and lowercased.
pub open spec fn declared_digest(m: ExecManifest) -> Seq<char> {
    lower_all(trim(m.payload.sha256@))
}

/// Checks that the payload matches the SHA-256 the manifest declares.
pub fn verify_payload_hash(manifest: &ExecManifest) -> (r: Result<(), ExecFormatError>)
    ensures
        r is Ok <==> payload_digest(*manifest) == declared_digest(*manifest),
        r matches Err(e) ==> (e matches ExecFormatError::PayloadHashMismatch { declared, actual }
            && declared@ == declared_digest(*manifest) && actual@ == payload_digest(*manifest)),
{
    let digest = sha256_digest(manifest.payload.inline.as_str().as_bytes());
    let actual = encode(digest.as_slice());
    let d0 = chars_of(manifest.payload.sha256.as_str());
    let d1 = trim_chars(d0.as_slice());
    let declared = lower_chars(d1.as_slice());
    let a = chars_of(actual.as_str());
    if chars_eq(a.as_slice(), declared.as_slice()) {
        Ok(())
    } else {
        Err(ExecFormatError::PayloadHashMismatch { declared: string_of(declared.as_slice()), actual })
    }
}

/// A bundle whose signature and payload hash have been verified.
#[derive(Debug, Clone)]
pub struct VerifiedBundle {
    manifest: ExecManifest,
}

impl VerifiedBundle {
    /// The verified manifest.
    pub closed spec fn spec_manifest(&self) -> ExecManifest {
        self.manifest
    }

    /// Checks the detached signature `signature_text` over the exact bytes
    /// `manifest_bytes` against every key of `trust`.
    ///
    /// A malformed signature is `BadSignature`; a signature no trusted key
    /// verifies is `Untrusted`.
    pub fn authenticate(manifest_bytes: &[u8], signature_text: &str, trust: &OperatorTrust) -> (r: Result<Authenticated, ExecFormatError>)
        ensures
            !(hex_ok(sig_field(signature_text@)) && hex_decoded(sig_field(signature_text@)).len() == 64) ==> (r matches Err(e)
                && e is BadSignature),
            hex_ok(sig_field(signature_text@)) && hex_decoded(sig_field(signature_text@)).len() == 64 ==> {
                &&& r is Ok <==> signed_by_one_of(trust.spec_keys(), manifest_bytes@, hex_decoded(sig_field(signature_text@)))
                &&& r is Err ==> r == Err::<Authenticated, ExecFormatError>(ExecFormatError::Untrusted)
            },
            r matches Ok(a) ==> a.spec_bytes() == manifest_bytes@,
    {
        let sig = match parse_signature(signature_text) {
            Ok(s) => s,
            Err(e) => {
                return Err(e);
            },
        };
        let keys = trust.keys();
        let ghost ks = trust.spec_keys();
        let mut i: usize = 0;
        while i < keys.len()
            invariant
                i <= keys@.len(),
                keys@.map_values(|k: [u8; 32]| k@) == ks,
                ks == trust.spec_keys(),
                sig@ == hex_decoded(sig_field(signature_text@)),
                hex_ok(sig_field(signature_text@)),
                hex_decoded(sig_field(signature_text@)).len() == 64,
                forall|j: int| 0 <= j < i ==> !ed25519_verifies(#[trigger] ks[j], manifest_bytes@, sig@),
            decreases keys.len() - i,
        {
            match verify_strict(&keys[i], manifest_bytes, &sig) {
                Ok(()) => {
                    assert(ks[i as int] == keys@[i as int]@);
                    return Ok(Authenticated { bytes: copy_bytes(manifest_bytes) });
                },
                Err(_) => {
                    assert(ks[i as int] == keys@[i as int]@);
                },
            }
            i = i + 1;
        }
        Err(ExecFormatError::Untrusted)
    }

    /// Finishes verification of authenticated bytes once they are parsed:
    /// a parse failure is `BadManifest`, and the payload must match the
    /// manifest's declared SHA-256.
    pub fn from_authenticated(auth: Authenticated, parsed: Result<ExecManifest, String>) -> (r: Result<VerifiedBundle, ExecFormatError>)
        ensures
            parsed matches Err(m) ==> (r matches Err(ExecFormatError::BadManifest(x)) && x@ == m@),
            parsed matches Ok(m) ==> (r is Ok <==> payload_digest(m) == declared_digest(m)),
            parsed matches Ok(m) && r is Err ==> (r matches Err(e) && e is PayloadHashMismatch),
            r matches Ok(b) ==> parsed == Ok::<ExecManifest, String>(b.spec_manifest()),
    {
        match parsed {
            Err(m) => Err(ExecFormatError::BadManifest(m)),
            Ok(manifest) => {
                match verify_payload_hash(&manifest) {
                    Ok(()) => Ok(VerifiedBundle { manifest }),
                    Err(e) => Err(e),
                }
            },
        }
    }

    /// The authenticated manifest.
    pub fn manifest(&self) -> (r: &ExecManifest)
        ensures
            *r == self.spec_manifest(),
    {
        &self.manifest
    }

    /// Validates proposed argument values against this bundle's schema
    /// (see [`validate`]). Only verified bundles can have arguments
    /// validated.
    pub fn validate_args(&self, provided: &[(String, String)]) -> (r: Result<(), ExecFormatError>)
        ensures
            r is Ok <==> args_ok(self.spec_manifest().args@, provided@),
            r matches Err(e) ==> if exists|i: int| first_undeclared(self.spec_manifest().args@, provided@, i) {
                exists|i: int|
                    first_undeclared(self.spec_manifest().args@, provided@, i) && (e matches ExecFormatError::ArgRejected(m)
                        && m@ == "undeclared argument "@ + debug_quoted((#[trigger] provided@[i]).0@))
            } else {
                exists|k: int|
                    first_failing(self.spec_manifest().args@, provided@, k) && arg_error_ok(
                        (#[trigger] self.spec_manifest().args@[k]).0@,
                        self.spec_manifest().args@[k].1,
                        provided@,
                        e,
                    )
            },
    {
        validate(&self.manifest, provided)
    }
}

} // verus!
