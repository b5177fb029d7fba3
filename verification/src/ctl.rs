//! The signed control-plane protocol between the operator's tool and the
//! daemon.
//!
//! The control socket authenticates the operator by peer credentials
//! (checked at the socket) and by an Ed25519 signature over every request,
//! verified against the operator public key. The operator signs the exact
//! encoded body; the daemon checks the signature against those received
//! bytes and only then decodes them. The body carries a monotonic `seq`
//! and a random `nonce` for replay protection. Encoding and decoding the
//! messages is the caller's part; this module handles their bytes.

use vstd::prelude::*;

use crate::crypto::{ed25519_signature, ed25519_verifies, sign, verify_strict};
use crate::text::{dec_digits, owned, push_dec, push_str, string_of};
use crate::wire::{be_prefix, body_too_long, checked_frame_len, declared_too_long, prefixed, MAX_FRAME_LEN};

verus! {

/// Control protocol version this build speaks.
pub const PROTOCOL_VERSION: u16 = 1;

/// Errors at the operator–daemon boundary. Every variant is a hard
/// rejection: do not act on the request.
#[derive(Debug, Clone, PartialEq, Eq)]
#[non_exhaustive]
pub enum CtlError {
    /// The envelope's protocol version is not one this build accepts.
    VersionMismatch {
        /// Version seen on the wire.
        got: u16,
        /// Version this build speaks.
        expected: u16,
    },
    /// Encoding or decoding failed (the codec's message).
    Codec(String),
    /// The signature field was not 64 bytes (its length).
    BadSignatureLen(usize),
    /// The signature did not verify against the operator key.
    SignatureInvalid,
    /// A length-prefixed frame was malformed or exceeded the size limit.
    Framing(String),
}

/// What the operator asks the daemon to do.
#[derive(Debug, Clone, PartialEq, Eq)]
pub enum CtlRequest {
    /// Liveness check.
    Ping,
    /// Run one task through the read-only pipeline, with labeled untrusted
    /// context the model should consider.
    RunTask {
        /// The operator's instruction.
        task: String,
        /// Labeled untrusted context: `(label, content)`.
        context: Vec<(String, String)>,
    },
    /// Reload the signed allowlist and policy.
    ReloadPolicy,
}

/// The result of a task, in wire-stable form.
#[derive(Debug, Clone, PartialEq, Eq)]
pub enum CtlOutcome {
    /// The model asked a clarifying question; nothing ran.
    Asked {
        /// The question.
        question: String,
    },
    /// The model declined; nothing ran.
    Refused {
        /// Why.
        reason: String,
    },
    /// A gate refused the proposed action; nothing ran.
    Denied {
        /// Which stage refused it.
        stage: String,
        /// Reason.
        reason: String,
    },
    /// Allowlisted, but the action needs operator approval; nothing ran.
    ApprovalRequired {
        /// The bundle awaiting approval.
        exec_name: String,
        /// Why approval is required.
        reason: String,
        /// Whether two independent operator signatures are required.
        two_person: bool,
    },
    /// The session was aborted (canary leak).
    Compromised,
    /// The action ran on the executor.
    Executed {
        /// Bundle that ran.
        exec_name: String,
        /// Process exit code.
        exit_code: i32,
        /// Captured stdout (size-capped by the executor).
        stdout: String,
        /// Captured stderr.
        stderr: String,
    },
}

/// The daemon's reply.
#[derive(Debug, Clone, PartialEq, Eq)]
pub enum CtlResponse {
    /// Reply to `Ping`.
    Pong,
    /// Reply to `RunTask`.
    Task(CtlOutcome),
    /// Reply to `ReloadPolicy`.
    PolicyReloaded {
        /// Whether the reload succeeded.
        ok: bool,
        /// Human-readable detail.
        detail: String,
    },
    /// The daemon could not service the request.
    Error {
        /// What went wrong.
        detail: String,
    },
}

/// The signed body: the request plus replay metadata.
#[derive(Debug, Clone, PartialEq, Eq)]
pub struct CtlBody {
    /// Per-connection monotonic counter.
    pub seq: u64,
    /// Per-request random nonce.
    pub nonce: [u8; 16],
    /// Milliseconds since the Unix epoch when issued.
    pub issued_ms: u64,
    /// The actual request.
    pub request: CtlRequest,
}

/// A signed, versioned control envelope.
#[derive(Debug, Clone, PartialEq, Eq)]
pub struct SignedCtlEnvelope {
    /// Protocol version.
    pub version: u16,
    /// The encoded [`CtlBody`]: the exact bytes that were signed.
    pub body: Vec<u8>,
    /// Ed25519 signature (64 bytes) over `body`.
    pub signature: Vec<u8>,
}

/// Whether `env` opens under the public key `key`: this build's version, a
/// 64-byte signature, and that signature verifies over the body bytes.
pub open spec fn opens(env: SignedCtlEnvelope, key: Seq<u8>) -> bool {
    env.version == PROTOCOL_VERSION && env.signature@.len() == 64 && ed25519_verifies(
        key,
        env.body@,
        env.signature@,
    )
}

fn array_of(v: &[u8]) -> (r: [u8; 64])
    requires
        v@.len() == 64,
    ensures
        r@ == v@,
{
    crate::hex::to_array64(v)
}

fn vec_of(a: &[u8; 64]) -> (r: Vec<u8>)
    ensures
        r@ == a@,
{
    let mut v: Vec<u8> = Vec::new();
    let mut i: usize = 0;
    while i < 64
        invariant
            i <= 64,
            a@.len() == 64,
            v@ == a@.take(i as int),
        decreases 64 - i,
    {
        v.push(a[i]);
        i = i + 1;
        assert(v@ =~= a@.take(i as int));
    }
    assert(a@.take(64) =~= a@);
    v
}

impl SignedCtlEnvelope {
    /// Seals an encoded body: signs those exact bytes with the operator's
    /// secret seed and wraps them in a versioned envelope.
    pub fn seal_encoded(body: Vec<u8>, operator_seed: &[u8; 32]) -> (r: SignedCtlEnvelope)
        ensures
            r.version == PROTOCOL_VERSION,
            r.body@ == body@,
            r.signature@ == ed25519_signature(operator_seed@, body@),
    {
        let sig = sign(operator_seed, body.as_slice());
        SignedCtlEnvelope { version: PROTOCOL_VERSION, body, signature: vec_of(&sig) }
    }

    /// Checks version and signature against the trusted operator key, and
    /// gives the body bytes to decode only when both hold.
    pub fn authenticate(&self, verifying_key: &[u8; 32]) -> (r: Result<&[u8], CtlError>)
        ensures
            self.version != PROTOCOL_VERSION ==> r == Err::<&[u8], CtlError>(
                CtlError::VersionMismatch { got: self.version, expected: PROTOCOL_VERSION },
            ),
            self.version == PROTOCOL_VERSION && self.signature@.len() != 64 ==> r == Err::<&[u8], CtlError>(
                CtlError::BadSignatureLen(self.signature@.len() as usize),
            ),
            self.version == PROTOCOL_VERSION && self.signature@.len() == 64 && !opens(*self, verifying_key@)
                ==> r == Err::<&[u8], CtlError>(CtlError::SignatureInvalid),
            r is Ok <==> opens(*self, verifying_key@),
            r matches Ok(b) ==> b@ == self.body@,
    {
        if self.version != PROTOCOL_VERSION {
            return Err(CtlError::VersionMismatch { got: self.version, expected: PROTOCOL_VERSION });
        }
        if self.signature.len() != 64 {
            return Err(CtlError::BadSignatureLen(self.signature.len()));
        }
        let sig = array_of(self.signature.as_slice());
        match verify_strict(verifying_key, self.body.as_slice(), &sig) {
            Ok(()) => Ok(self.body.as_slice()),
            Err(_) => Err(CtlError::SignatureInvalid),
        }
    }

    /// Frames an encoded envelope: refused when the body exceeds
    /// [`MAX_FRAME_LEN`].
    pub fn to_frame(encoded: &[u8]) -> (r: Result<Vec<u8>, CtlError>)
        ensures
            r is Ok <==> encoded@.len() <= MAX_FRAME_LEN,
            r matches Ok(f) ==> f@ == be_prefix(encoded@.len()) + encoded@,
            r matches Err(e) ==> (e matches CtlError::Framing(m) && m@ == body_too_long(encoded@.len())),
    {
        if encoded.len() > MAX_FRAME_LEN {
            let mut v: Vec<char> = Vec::new();
            push_str(&mut v, "frame of ");
            push_dec(&mut v, encoded.len() as u64);
            push_str(&mut v, " bytes exceeds cap 1048576");
            return Err(CtlError::Framing(string_of(v.as_slice())));
        }
        Ok(prefixed(encoded))
    }

    /// The body length a 4-byte big-endian prefix declares, refused above
    /// [`MAX_FRAME_LEN`] before anything is allocated.
    pub fn frame_len(prefix: [u8; 4]) -> (r: Result<usize, CtlError>)
        ensures
            r is Ok <==> crate::wire::be_u32(prefix@) <= MAX_FRAME_LEN,
            r matches Ok(n) ==> n as nat == crate::wire::be_u32(prefix@),
            r matches Err(e) ==> (e matches CtlError::Framing(m) && m@ == declared_too_long(
                crate::wire::be_u32(prefix@),
            )),
    {
        match checked_frame_len(prefix) {
            Ok(n) => Ok(n),
            Err(m) => Err(CtlError::Framing(m)),
        }
    }
}

/// Frames an encoded response. Responses are not signed: the socket is
/// peer-credential authenticated and the reply goes back to the already
/// authenticated operator connection.
pub fn response_to_frame(encoded: &[u8]) -> (r: Result<Vec<u8>, CtlError>)
    ensures
        r is Ok <==> encoded@.len() <= u32::MAX,
        r matches Ok(f) ==> f@ == be_prefix(encoded@.len()) + encoded@,
        r matches Err(e) ==> (e matches CtlError::Framing(m) && m@ == "response too large"@),
{
    if encoded.len() as u64 > 4294967295u64 {
        return Err(CtlError::Framing(owned("response too large")));
    }
    Ok(prefixed(encoded))
}

/// A sealed envelope opens under the matching public key whenever the
/// seed's signature verifies under it.
pub proof fn lemma_sealed_envelope_opens(env: SignedCtlEnvelope, seed: Seq<u8>, public: Seq<u8>)
    requires
        env.version == PROTOCOL_VERSION,
        env.signature@ == ed25519_signature(seed, env.body@),
        ed25519_signature(seed, env.body@).len() == 64,
        ed25519_verifies(public, env.body@, env.signature@),
    ensures
        opens(env, public),
{
}

/// Changing the version of an envelope makes it refused, whatever its
/// signature.
pub proof fn lemma_other_version_refused(env: SignedCtlEnvelope, key: Seq<u8>)
    requires
        env.version != PROTOCOL_VERSION,
    ensures
        !opens(env, key),
{
}

} // verus!
