//! The signed request/response protocol between the daemon and the
//! executor.
//!
//! The daemon is lower trust than the executor. Every request carries an
//! Ed25519 signature from the current per-session key over the exact
//! encoded request bytes that travel on the wire; the executor checks the
//! signature against those received bytes and only then decodes them
//! (authenticate first, parse second, and never depend on encoder
//! determinism for security). Encoding and decoding the messages is the
//! caller's part; this module handles their bytes.

use vstd::prelude::*;

use crate::crypto::{ed25519_signature, ed25519_verifies, sign, verify_strict};
use crate::mode::{OperationMode, RiskLevel};
use crate::primitives::id::{ActionId, SessionId};
use crate::text::{dec_digits, owned, push_dec, push_str, string_of};
use crate::wire::{be_prefix, body_too_long, checked_frame_len, declared_too_long, prefixed, MAX_FRAME_LEN};

verus! {

/// Protocol version this build speaks.
pub const PROTOCOL_VERSION: u16 = 1;

/// Errors at the daemon–executor boundary. Every variant is a hard
/// rejection: do not execute.
#[derive(Debug, Clone, PartialEq, Eq)]
#[non_exhaustive]
pub enum IpcError {
    /// The envelope's protocol version is not one this build accepts.
    VersionMismatch {
        /// Version seen on the wire.
        got: u16,
        /// Version this build speaks.
        expected: u16,
    },
    /// Encoding or decoding failed (the codec's message).
    Codec(String),
    /// The signature field was not 64 bytes (its length).
    BadSignatureLen(usize),
    /// The signature did not verify against the session key.
    SignatureInvalid,
    /// A length-prefixed frame was malformed or exceeded the size limit.
    Framing(String),
}

/// The text of an IPC error.
pub open spec fn ipc_error_text(e: IpcError) -> Seq<char> {
    match e {
        IpcError::VersionMismatch { got, expected } => "unsupported IPC protocol version "@ + dec_digits(
            got as nat,
        ) + " (this build speaks "@ + dec_digits(expected as nat) + ")"@,
        IpcError::Codec(m) => "IPC codec error: "@ + m@,
        IpcError::BadSignatureLen(n) => "signature is malformed (expected 64 bytes, got "@ + dec_digits(
            n as nat,
        ) + ")"@,
        IpcError::SignatureInvalid => "session signature verification failed"@,
        IpcError::Framing(m) => "framing error: "@ + m@,
    }
}

impl IpcError {
    /// The error's text.
    pub fn to_string(&self) -> (r: String)
        ensures
            r@ == ipc_error_text(*self),
    {
        let mut v: Vec<char> = Vec::new();
        match self {
            IpcError::VersionMismatch { got, expected } => {
                push_str(&mut v, "unsupported IPC protocol version ");
                push_dec(&mut v, *got as u64);
                push_str(&mut v, " (this build speaks ");
                push_dec(&mut v, *expected as u64);
                push_str(&mut v, ")");
            },
            IpcError::Codec(m) => {
                push_str(&mut v, "IPC codec error: ");
                push_str(&mut v, m.as_str());
            },
            IpcError::BadSignatureLen(n) => {
                push_str(&mut v, "signature is malformed (expected 64 bytes, got ");
                push_dec(&mut v, *n as u64);
                push_str(&mut v, ")");
            },
            IpcError::SignatureInvalid => {
                push_str(&mut v, "session signature verification failed");
            },
            IpcError::Framing(m) => {
                push_str(&mut v, "framing error: ");
                push_str(&mut v, m.as_str());
            },
        }
        string_of(v.as_slice())
    }
}

/// A request to execute one resolved action. Every field is a claim the
/// executor re-verifies, not a fact it trusts.
#[derive(Debug, Clone, PartialEq, Eq)]
pub struct ExecRequest {
    /// Session this request belongs to.
    pub session_id: SessionId,
    /// Unique id for this action.
    pub action_id: ActionId,
    /// Per-session monotonic counter.
    pub seq: u64,
    /// Per-request random nonce.
    pub nonce: [u8; 16],
    /// Milliseconds since the Unix epoch when the daemon issued this.
    pub issued_ms: u64,
    /// Active profile name.
    pub profile: String,
    /// Active operating mode.
    pub mode: OperationMode,
    /// The bundle name to resolve and run.
    pub exec_name: String,
    /// Argument values by name, in ascending name order.
    pub args: Vec<(String, String)>,
    /// Risk the daemon believes this action has (re-derived from the bundle).
    pub declared_risk: RiskLevel,
    /// Whether the daemon believes this action is read-only (re-derived
    /// from the bundle).
    pub declared_read_only: bool,
}

/// Why the executor refused a request, by pipeline stage.
#[derive(Debug, Clone, Copy, PartialEq, Eq, Structural)]
#[non_exhaustive]
pub enum RejectStage {
    /// Peer process credentials did not match the configured daemon uid.
    PeerUnauthorized,
    /// Session signature invalid or wrong version.
    SignatureInvalid,
    /// Replay, out-of-order, or duplicate nonce.
    Replay,
    /// The bundle's signature, hash or arguments did not verify.
    BundleUnverified,
    /// The immutable denylist matched.
    DenylistHit,
    /// Not present in the active allowlist.
    NotAllowlisted,
    /// Allowlisted but requires operator approval not presented here.
    ApprovalRequired,
    /// Argument schema validation failed.
    ArgRejected,
    /// Only read-only bundles are executed; this one mutates.
    NotReadOnly,
    /// The action failed to spawn, timed out, or was killed.
    ExecFailure,
    /// A mutating action could not be given a recovery point.
    SnapshotUnavailable,
    /// The action's sandbox could not be built or enforced.
    SandboxRejected,
    /// A blast-rate ceiling was hit.
    RateLimited,
}

/// The result of (attempting) an execution.
#[derive(Debug, Clone, PartialEq, Eq)]
pub enum ExecOutcome {
    /// The action ran to completion (any exit code).
    Completed {
        /// Process exit code (`-1` if terminated by signal).
        exit_code: i32,
        /// Wall-clock duration in milliseconds.
        duration_ms: u64,
        /// Captured stdout (possibly truncated).
        stdout: String,
        /// Captured stderr (possibly truncated).
        stderr: String,
        /// Whether stdout or stderr was truncated at the size cap.
        output_truncated: bool,
        /// The recovery point taken before the action, if it mutated
        /// persistent state.
        snapshot_id: Option<String>,
    },
    /// The request was refused before or at execution.
    Rejected {
        /// Which gate refused it.
        stage: RejectStage,
        /// Human-readable reason.
        reason: String,
    },
}

/// The executor's reply to one request.
#[derive(Debug, Clone, PartialEq, Eq)]
pub struct ExecResponse {
    /// Echoes the request's action id.
    pub action_id: ActionId,
    /// The outcome.
    pub outcome: ExecOutcome,
}

impl ExecResponse {
    /// A rejection response.
    pub fn rejected(action_id: ActionId, stage: RejectStage, reason: String) -> (r: ExecResponse)
        ensures
            r.action_id == action_id,
            r.outcome == (ExecOutcome::Rejected { stage, reason }),
    {
        ExecResponse { action_id, outcome: ExecOutcome::Rejected { stage, reason } }
    }
}

/// A signed, versioned request envelope.
#[derive(Debug, Clone, PartialEq, Eq)]
pub struct SignedEnvelope {
    /// Protocol version.
    pub version: u16,
    /// The encoded request: the exact bytes that were signed.
    pub request: Vec<u8>,
    /// Ed25519 signature (64 bytes) over `request`.
    pub signature: Vec<u8>,
}

/// Whether `env` opens under the public key `key`: this build's version, a
/// 64-byte signature, and that signature verifies over the request bytes.
pub open spec fn opens(env: SignedEnvelope, key: Seq<u8>) -> bool {
    env.version == PROTOCOL_VERSION && env.signature@.len() == 64 && ed25519_verifies(
        key,
        env.request@,
        env.signature@,
    )
}

fn array_of(v: &[u8]) -> (r: [u8; 64])
    requires
        v@.len() == 64,
    ensures
        r@ == v@,
{
    crate::hex::to_array64(v)
}

fn vec_of(a: &[u8; 64]) -> (r: Vec<u8>)
    ensures
        r@ == a@,
{
    let mut v: Vec<u8> = Vec::new();
    let mut i: usize = 0;
    while i < 64
        invariant
            i <= 64,
            a@.len() == 64,
            v@ == a@.take(i as int),
        decreases 64 - i,
    {
        v.push(a[i]);
        i = i + 1;
        assert(v@ =~= a@.take(i as int));
    }
    assert(a@.take(64) =~= a@);
    v
}

impl SignedEnvelope {
    /// Seals an encoded request: signs those exact bytes with the
    /// per-session secret seed and wraps them in a versioned envelope.
    pub fn seal_encoded(request: Vec<u8>, session_seed: &[u8; 32]) -> (r: SignedEnvelope)
        ensures
            r.version == PROTOCOL_VERSION,
            r.request@ == request@,
            r.signature@ == ed25519_signature(session_seed@, request@),
    {
        let sig = sign(session_seed, request.as_slice());
        SignedEnvelope { version: PROTOCOL_VERSION, request, signature: vec_of(&sig) }
    }

    /// Checks version and signature against the session public key, and
    /// gives the request bytes to decode only when both hold.
    pub fn authenticate(&self, verifying_key: &[u8; 32]) -> (r: Result<&[u8], IpcError>)
        ensures
            self.version != PROTOCOL_VERSION ==> r == Err::<&[u8], IpcError>(
                IpcError::VersionMismatch { got: self.version, expected: PROTOCOL_VERSION },
            ),
            self.version == PROTOCOL_VERSION && self.signature@.len() != 64 ==> r == Err::<&[u8], IpcError>(
                IpcError::BadSignatureLen(self.signature@.len() as usize),
            ),
            self.version == PROTOCOL_VERSION && self.signature@.len() == 64 && !opens(*self, verifying_key@)
                ==> r == Err::<&[u8], IpcError>(IpcError::SignatureInvalid),
            r is Ok <==> opens(*self, verifying_key@),
            r matches Ok(b) ==> b@ == self.request@,
    {
        if self.version != PROTOCOL_VERSION {
            return Err(IpcError::VersionMismatch { got: self.version, expected: PROTOCOL_VERSION });
        }
        if self.signature.len() != 64 {
            return Err(IpcError::BadSignatureLen(self.signature.len()));
        }
        let sig = array_of(self.signature.as_slice());
        match verify_strict(verifying_key, self.request.as_slice(), &sig) {
            Ok(()) => Ok(self.request.as_slice()),
            Err(_) => Err(IpcError::SignatureInvalid),
        }
    }

    /// Frames an encoded envelope: refused when the body exceeds
    /// [`MAX_FRAME_LEN`].
    pub fn to_frame(encoded: &[u8]) -> (r: Result<Vec<u8>, IpcError>)
        ensures
            r is Ok <==> encoded@.len() <= MAX_FRAME_LEN,
            r matches Ok(f) ==> f@ == be_prefix(encoded@.len()) + encoded@,
            r matches Err(e) ==> (e matches IpcError::Framing(m) && m@ == body_too_long(encoded@.len())),
    {
        if encoded.len() > MAX_FRAME_LEN {
            let mut v: Vec<char> = Vec::new();
            push_str(&mut v, "frame of ");
            push_dec(&mut v, encoded.len() as u64);
            push_str(&mut v, " bytes exceeds cap 1048576");
            return Err(IpcError::Framing(string_of(v.as_slice())));
        }
        Ok(prefixed(encoded))
    }

    /// The body length a 4-byte big-endian prefix declares, refused above
    /// [`MAX_FRAME_LEN`] before anything is allocated.
    pub fn frame_len(prefix: [u8; 4]) -> (r: Result<usize, IpcError>)
        ensures
            r is Ok <==> crate::wire::be_u32(prefix@) <= MAX_FRAME_LEN,
            r matches Ok(n) ==> n as nat == crate::wire::be_u32(prefix@),
            r matches Err(e) ==> (e matches IpcError::Framing(m) && m@ == declared_too_long(
                crate::wire::be_u32(prefix@),
            )),
    {
        match checked_frame_len(prefix) {
            Ok(n) => Ok(n),
            Err(m) => Err(IpcError::Framing(m)),
        }
    }
}

/// Frames an encoded response. Responses are not signed: the socket is
/// peer-credential authenticated and the reply goes back to the already
/// authenticated daemon.
pub fn response_to_frame(encoded: &[u8]) -> (r: Result<Vec<u8>, IpcError>)
    ensures
        r is Ok <==> encoded@.len() <= u32::MAX,
        r matches Ok(f) ==> f@ == be_prefix(encoded@.len()) + encoded@,
        r matches Err(e) ==> (e matches IpcError::Framing(m) && m@ == "response too large"@),
{
    if encoded.len() as u64 > 4294967295u64 {
        return Err(IpcError::Framing(owned("response too large")));
    }
    Ok(prefixed(encoded))
}

/// A sealed envelope opens under the matching public key whenever the
/// seed's signature verifies under it.
pub proof fn lemma_sealed_envelope_opens(env: SignedEnvelope, seed: Seq<u8>, public: Seq<u8>)
    requires
        env.version == PROTOCOL_VERSION,
        env.signature@ == ed25519_signature(seed, env.request@),
        ed25519_signature(seed, env.request@).len() == 64,
        ed25519_verifies(public, env.request@, env.signature@),
    ensures
        opens(env, public),
{
}

/// Changing the version of an envelope makes it refused, whatever its
/// signature.
pub proof fn lemma_other_version_refused(env: SignedEnvelope, key: Seq<u8>)
    requires
        env.version != PROTOCOL_VERSION,
    ensures
        !opens(env, key),
{
}

} // verus!
