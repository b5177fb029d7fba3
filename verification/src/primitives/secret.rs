//! Containers for secret material.
//!
//! Neither type can be cloned or displayed, so a secret is copied only on
//! purpose and never formatted into a log by accident; the only
//! description either gives of itself is a redacted one. Byte secrets are
//! compared in constant time.

use vstd::prelude::*;

use crate::text::{chars_of, dec_digits, push_dec, string_of};
use vstd::string::StringSliceAdditionalSpecFns;

verus! {

/// Compares two equal-length byte strings in constant time.
///
/// Calls `subtle::ConstantTimeEq::ct_eq` on the slices and converts the
/// resulting `Choice` to `bool`: true exactly when every byte is equal.
#[verifier::external_body]
fn ct_eq_slices(a: &[u8], b: &[u8]) -> (r: bool)
    requires
        a@.len() == b@.len(),
    ensures
        r == (a@ == b@),
{
    bool::from(subtle::ConstantTimeEq::ct_eq(a, b))
}

/// A UTF-8 string holding secret material (API keys, passwords).
///
/// Read it with [`SecretString::expose_secret`] only where the raw value is
/// needed: the name marks the access in review.
pub struct SecretString(String);

impl View for SecretString {
    type V = Seq<char>;

    closed spec fn view(&self) -> Seq<char> {
        self.0@
    }
}

impl SecretString {
    /// Wraps `value`.
    pub fn new(value: String) -> (r: SecretString)
        ensures
            r@ == value@,
    {
        SecretString(value)
    }

    /// The secret value.
    pub fn expose_secret(&self) -> (r: &str)
        ensures
            r@ == self@,
    {
        self.0.as_str()
    }

    /// The length of the value in UTF-8 bytes.
    pub fn len(&self) -> (r: usize)
        ensures
            r == vstd::utf8::encode_utf8(self@).len() as usize,
    {
        self.0.as_str().len()
    }

    /// Whether the value is empty.
    pub fn is_empty(&self) -> (r: bool)
        ensures
            r == (self@.len() == 0),
    {
        self.0.as_str().is_empty()
    }

    /// A description that never contains the value.
    pub fn debug_string(&self) -> (r: String)
        ensures
            r@ == "SecretString([REDACTED])"@,
    {
        crate::text::owned("SecretString([REDACTED])")
    }
}

impl From<String> for SecretString {
    fn from(value: String) -> (r: SecretString)
        ensures
            r@ == value@,
    {
        SecretString::new(value)
    }
}

impl vstd::std_specs::convert::FromSpecImpl<String> for SecretString {
    open spec fn obeys_from_spec() -> bool {
        false
    }

    open spec fn from_spec(v: String) -> SecretString {
        vstd::pervasive::arbitrary()
    }
}

impl<'a> From<&'a str> for SecretString {
    fn from(value: &'a str) -> (r: SecretString)
        ensures
            r@ == value@,
    {
        SecretString::new(crate::text::owned(value))
    }
}

impl<'a> vstd::std_specs::convert::FromSpecImpl<&'a str> for SecretString {
    open spec fn obeys_from_spec() -> bool {
        false
    }

    open spec fn from_spec(v: &'a str) -> SecretString {
        vstd::pervasive::arbitrary()
    }
}

/// Raw bytes holding secret material (keys, tokens).
///
/// Read them with [`SecretBytes::expose_secret`] only where they are needed.
pub struct SecretBytes(Vec<u8>);

impl View for SecretBytes {
    type V = Seq<u8>;

    closed spec fn view(&self) -> Seq<u8> {
        self.0@
    }
}

/// The redacted description of a byte secret of `n` bytes.
pub open spec fn redacted_bytes_message(n: nat) -> Seq<char> {
    "SecretBytes([REDACTED; "@ + dec_digits(n) + " bytes])"@
}

impl SecretBytes {
    /// Wraps `value`.
    pub fn new(value: Vec<u8>) -> (r: SecretBytes)
        ensures
            r@ == value@,
    {
        SecretBytes(value)
    }

    /// The secret bytes.
    pub fn expose_secret(&self) -> (r: &[u8])
        ensures
            r@ == self@,
    {
        self.0.as_slice()
    }

    /// Whether the two secrets are equal, comparing contents in constant
    /// time. Secrets of different lengths are unequal; only that the
    /// lengths differ is revealed by timing.
    pub fn ct_eq(&self, other: &SecretBytes) -> (r: bool)
        ensures
            r == (self@ == other@),
    {
        if self.0.len() != other.0.len() {
            return false;
        }
        ct_eq_slices(self.0.as_slice(), other.0.as_slice())
    }

    /// The number of bytes held.
    pub fn len(&self) -> (r: usize)
        ensures
            r == self@.len(),
    {
        self.0.len()
    }

    /// Whether no bytes are held.
    pub fn is_empty(&self) -> (r: bool)
        ensures
            r == (self@.len() == 0),
    {
        self.0.len() == 0
    }

    /// A description that gives the length but never the bytes.
    pub fn debug_string(&self) -> (r: String)
        ensures
            r@ == redacted_bytes_message(self@.len()),
    {
        let mut v = chars_of("SecretBytes([REDACTED; ");
        push_dec(&mut v, self.0.len() as u64);
        let tail = chars_of(" bytes])");
        let ghost before = v@;
        let mut i: usize = 0;
        while i < tail.len()
            invariant
                i <= tail@.len(),
                v@ == before + tail@.take(i as int),
            decreases tail.len() - i,
        {
            v.push(tail[i]);
            i = i + 1;
            assert(v@ =~= before + tail@.take(i as int));
        }
        assert(tail@.take(tail@.len() as int) =~= tail@);
        assert(v@ =~= redacted_bytes_message(self@.len()));
        string_of(v.as_slice())
    }
}

impl From<Vec<u8>> for SecretBytes {
    fn from(value: Vec<u8>) -> (r: SecretBytes)
        ensures
            r@ == value@,
    {
        SecretBytes::new(value)
    }
}

impl vstd::std_specs::convert::FromSpecImpl<Vec<u8>> for SecretBytes {
    open spec fn obeys_from_spec() -> bool {
        false
    }

    open spec fn from_spec(v: Vec<u8>) -> SecretBytes {
        vstd::pervasive::arbitrary()
    }
}

} // verus!
