//! Typed 128-bit identifiers for sessions and actions.
//!
//! Both types are 16 random bytes, written as 32 lowercase hex digits.
//! They are not secret (they appear in audit records and logs) but must be
//! unguessable, so fresh ones come from the operating system's generator.

use vstd::prelude::*;

use std::str::FromStr;

use crate::hex::{decode_bytes, encode, first_non_hex, all_hex, bad_digit_message, hex_decoded, hex_encoded};
use crate::primitives::error::CoreError;
use crate::text::{chars_of, dec_digits, push_dec, string_of};
use vstd::string::StringSliceAdditionalSpecFns;

verus! {

/// `s` spells a 16-byte identifier: exactly 32 hex digits, either case.
pub open spec fn id_text_ok(s: Seq<u8>) -> bool {
    s.len() == 32 && all_hex(s)
}

/// The message for an identifier text of `n` bytes, `n != 32`.
pub open spec fn wrong_length_message(n: nat) -> Seq<char> {
    "expected 32 hex chars, got "@ + dec_digits(n)
}

/// The error `parse_hex16` reports for the bytes `s`, which do not spell
/// an identifier.
pub open spec fn id_error_ok(s: Seq<u8>, m: Seq<char>) -> bool {
    if s.len() != 32 {
        m == wrong_length_message(s.len())
    } else {
        exists|k: int| first_non_hex(s, k) && m == bad_digit_message(#[trigger] s[k])
    }
}

/// Parses 32 hex digits (either case) into 16 bytes.
pub fn parse_hex16(s: &str) -> (r: Result<[u8; 16], CoreError>)
    ensures
        r is Ok <==> id_text_ok(s.spec_bytes()),
        r matches Ok(b) ==> b@ == hex_decoded(s.spec_bytes()),
        r matches Err(CoreError::InvalidId(m)) ==> id_error_ok(s.spec_bytes(), m@),
{
    let src = s.as_bytes();
    if src.len() != 32 {
        let mut v = chars_of("expected 32 hex chars, got ");
        push_dec(&mut v, src.len() as u64);
        return Err(CoreError::InvalidId(string_of(v.as_slice())));
    }
    match decode_bytes(src) {
        Ok(v) => {
            proof {
                crate::hex::lemma_hex_decoded_len(src@);
            }
            let mut out = [0u8; 16];
            let mut i: usize = 0;
            while i < 16
                invariant
                    i <= 16,
                    v@.len() == 16,
                    forall|j: int| 0 <= j < i ==> out@[j] == v@[j],
                decreases 16 - i,
            {
                out[i] = v[i];
                i = i + 1;
            }
            assert(out@ =~= v@);
            Ok(out)
        },
        Err(m) => Err(CoreError::InvalidId(m)),
    }
}

/// Sixteen bytes from the operating system's random number generator.
///
/// Calls `rand::thread_rng().fill_bytes`; nothing is claimed of the bytes.
#[verifier::external_body]
fn random_bytes16() -> (r: [u8; 16]) {
    let mut bytes = [0u8; 16];
    rand::RngCore::fill_bytes(&mut rand::thread_rng(), &mut bytes);
    bytes
}

/// The value of `s` read as a big-endian unsigned number.
pub open spec fn be_value(s: Seq<u8>) -> nat
    decreases s.len(),
{
    if s.len() == 0 {
        0
    } else {
        be_value(s.drop_last()) * 256 + s.last() as nat
    }
}

/// `256` to the power `n`.
pub open spec fn pow256(n: nat) -> nat
    decreases n,
{
    if n == 0 {
        1
    } else {
        256 * pow256((n - 1) as nat)
    }
}

proof fn lemma_be_value_bound(s: Seq<u8>)
    ensures
        be_value(s) < pow256(s.len()),
    decreases s.len(),
{
    if s.len() > 0 {
        lemma_be_value_bound(s.drop_last());
    }
}

proof fn lemma_pow256_mono(i: nat, j: nat)
    requires
        i <= j,
    ensures
        pow256(i) <= pow256(j),
    decreases j,
{
    if i < j {
        lemma_pow256_mono(i, (j - 1) as nat);
    }
}

/// Equal-length byte strings with the same big-endian value are equal.
pub proof fn lemma_be_value_injective(a: Seq<u8>, b: Seq<u8>)
    requires
        a.len() == b.len(),
        be_value(a) == be_value(b),
    ensures
        a == b,
    decreases a.len(),
{
    if a.len() > 0 {
        let pa = be_value(a.drop_last());
        let pb = be_value(b.drop_last());
        let la = a.last() as int;
        let lb = b.last() as int;
        assert(la == lb && pa == pb) by (nonlinear_arith)
            requires
                pa * 256 + la == pb * 256 + lb,
                0 <= la < 256,
                0 <= lb < 256,
                pa >= 0,
                pb >= 0,
        ;
        lemma_be_value_injective(a.drop_last(), b.drop_last());
        assert(a =~= a.drop_last().push(a.last()));
        assert(b =~= b.drop_last().push(b.last()));
    }
}

/// The 16 bytes `b` as one big-endian 128-bit number (a map key).
pub fn key_of(b: &[u8; 16]) -> (r: u128)
    ensures
        r as nat == be_value(b@),
{
    proof {
        lemma_pow256_mono(0, 16);
        assert(pow256(16) == 0x1_0000_0000_0000_0000_0000_0000_0000_0000) by {
            reveal_with_fuel(pow256, 17);
        }
    }
    let mut v: u128 = 0;
    let mut i: usize = 0;
    while i < 16
        invariant
            i <= 16,
            b@.len() == 16,
            v as nat == be_value(b@.take(i as int)),
            pow256(16) == 0x1_0000_0000_0000_0000_0000_0000_0000_0000,
        decreases 16 - i,
    {
        proof {
            lemma_be_value_bound(b@.take(i as int));
            lemma_pow256_mono((i + 1) as nat, 16);
            assert(b@.take(i + 1).drop_last() =~= b@.take(i as int));
        }
        v = v * 256 + b[i] as u128;
        i = i + 1;
    }
    assert(b@.take(16) =~= b@);
    v
}

/// Unique identifier for a single interactive session with the model.
///
/// Generated fresh at session start and carried by every audit record of
/// the session.
#[derive(Clone, Copy, PartialEq, Eq, Hash, Debug)]
pub struct SessionId([u8; 16]);

/// Unique identifier for a single action proposed or executed in a session.
///
/// Links the proposal, the policy decision, the sandbox run and the outcome
/// record in the audit log.
#[derive(Clone, Copy, PartialEq, Eq, Hash, Debug)]
pub struct ActionId([u8; 16]);

impl View for SessionId {
    type V = Seq<u8>;

    closed spec fn view(&self) -> Seq<u8> {
        self.0@
    }
}

impl View for ActionId {
    type V = Seq<u8>;

    closed spec fn view(&self) -> Seq<u8> {
        self.0@
    }
}

impl SessionId {
    /// A fresh random identifier.
    pub fn new() -> (r: SessionId)
        ensures
            r@.len() == 16,
    {
        SessionId(random_bytes16())
    }

    /// The identifier with the given bytes (e.g. read back from storage).
    pub fn from_bytes(bytes: [u8; 16]) -> (r: SessionId)
        ensures
            r@ == bytes@,
    {
        SessionId(bytes)
    }

    /// The underlying bytes.
    pub fn as_bytes(&self) -> (r: &[u8; 16])
        ensures
            r@ == self@,
    {
        &self.0
    }

    /// The 32 lowercase hex digits of the identifier.
    pub fn to_string(&self) -> (r: String)
        ensures
            r@ == hex_encoded(self@),
    {
        encode(self.0.as_slice())
    }

    /// Parses 32 hex digits (either case); see [`parse_hex16`].
    pub fn parse(s: &str) -> (r: Result<SessionId, CoreError>)
        ensures
            r is Ok <==> id_text_ok(s.spec_bytes()),
            r matches Ok(id) ==> id@ == hex_decoded(s.spec_bytes()),
            r matches Err(CoreError::InvalidId(m)) ==> id_error_ok(s.spec_bytes(), m@),
    {
        match parse_hex16(s) {
            Ok(b) => Ok(SessionId(b)),
            Err(e) => Err(e),
        }
    }
}

impl ActionId {
    /// A fresh random identifier.
    pub fn new() -> (r: ActionId)
        ensures
            r@.len() == 16,
    {
        ActionId(random_bytes16())
    }

    /// The identifier with the given bytes (e.g. read back from storage).
    pub fn from_bytes(bytes: [u8; 16]) -> (r: ActionId)
        ensures
            r@ == bytes@,
    {
        ActionId(bytes)
    }

    /// The underlying bytes.
    pub fn as_bytes(&self) -> (r: &[u8; 16])
        ensures
            r@ == self@,
    {
        &self.0
    }

    /// The 32 lowercase hex digits of the identifier.
    pub fn to_string(&self) -> (r: String)
        ensures
            r@ == hex_encoded(self@),
    {
        encode(self.0.as_slice())
    }

    /// Parses 32 hex digits (either case); see [`parse_hex16`].
    pub fn parse(s: &str) -> (r: Result<ActionId, CoreError>)
        ensures
            r is Ok <==> id_text_ok(s.spec_bytes()),
            r matches Ok(id) ==> id@ == hex_decoded(s.spec_bytes()),
            r matches Err(CoreError::InvalidId(m)) ==> id_error_ok(s.spec_bytes(), m@),
    {
        match parse_hex16(s) {
            Ok(b) => Ok(ActionId(b)),
            Err(e) => Err(e),
        }
    }
}

impl FromStr for SessionId {
    type Err = CoreError;

    fn from_str(s: &str) -> (r: Result<SessionId, CoreError>)
        ensures
            r is Ok <==> id_text_ok(s.spec_bytes()),
            r matches Ok(id) ==> id@ == hex_decoded(s.spec_bytes()),
            r matches Err(CoreError::InvalidId(m)) ==> id_error_ok(s.spec_bytes(), m@),
    {
        SessionId::parse(s)
    }
}

impl FromStr for ActionId {
    type Err = CoreError;

    fn from_str(s: &str) -> (r: Result<ActionId, CoreError>)
        ensures
            r is Ok <==> id_text_ok(s.spec_bytes()),
            r matches Ok(id) ==> id@ == hex_decoded(s.spec_bytes()),
            r matches Err(CoreError::InvalidId(m)) ==> id_error_ok(s.spec_bytes(), m@),
    {
        ActionId::parse(s)
    }
}

/// An identifier's text parses back to the same identifier.
pub proof fn lemma_id_text_round_trip(id: Seq<u8>, s: &str)
    requires
        id.len() == 16,
        s@ == hex_encoded(id),
    ensures
        id_text_ok(s.spec_bytes()),
        hex_decoded(s.spec_bytes()) == id,
{
    crate::hex::lemma_hex_text_round_trip(id, s);
}

} // verus!
