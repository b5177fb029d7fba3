//! Length-prefixed framing shared by both local sockets.
//!
//! Stream sockets have no message boundaries, so each message is sent as a
//! 4-byte big-endian length followed by that many bytes. A hard cap
//! rejects absurd lengths before anything is allocated, so a hostile or
//! buggy peer cannot make the receiver allocate unbounded memory.

use vstd::prelude::*;

use crate::text::{dec_digits, push_dec, push_str, string_of};

verus! {

/// Hard cap on a single frame body (1 MiB).
pub const MAX_FRAME_LEN: usize = 1048576;

/// The number a 4-byte big-endian prefix declares.
pub open spec fn be_u32(p: Seq<u8>) -> nat {
    (p[0] as nat) * 16777216 + (p[1] as nat) * 65536 + (p[2] as nat) * 256 + (p[3] as nat)
}

/// The 4-byte big-endian spelling of `n < 2^32`.
pub open spec fn be_prefix(n: nat) -> Seq<u8> {
    seq![(n / 16777216) as u8, ((n / 65536) % 256) as u8, ((n / 256) % 256) as u8, (n % 256) as u8]
}

/// The message for a declared length over the cap.
pub open spec fn declared_too_long(n: nat) -> Seq<char> {
    "declared frame length "@ + dec_digits(n) + " exceeds cap 1048576"@
}

/// The message for a body over the cap.
pub open spec fn body_too_long(n: nat) -> Seq<char> {
    "frame of "@ + dec_digits(n) + " bytes exceeds cap 1048576"@
}

/// The number the prefix declares.
pub fn prefix_value(prefix: [u8; 4]) -> (r: u32)
    ensures
        r as nat == be_u32(prefix@),
{
    (prefix[0] as u32) * 16777216 + (prefix[1] as u32) * 65536 + (prefix[2] as u32) * 256 + (prefix[3] as u32)
}

/// The body length a prefix declares, when within the cap; otherwise the
/// refusal message.
pub fn checked_frame_len(prefix: [u8; 4]) -> (r: Result<usize, String>)
    ensures
        r is Ok <==> be_u32(prefix@) <= MAX_FRAME_LEN,
        r matches Ok(n) ==> n as nat == be_u32(prefix@),
        r matches Err(m) ==> m@ == declared_too_long(be_u32(prefix@)),
{
    let len = prefix_value(prefix);
    if len as u64 > MAX_FRAME_LEN as u64 {
        let mut v: Vec<char> = Vec::new();
        push_str(&mut v, "declared frame length ");
        push_dec(&mut v, len as u64);
        push_str(&mut v, " exceeds cap 1048576");
        return Err(string_of(v.as_slice()));
    }
    Ok(len as usize)
}

/// The frame for `body`: its 4-byte big-endian length, then the body.
pub fn prefixed(body: &[u8]) -> (r: Vec<u8>)
    requires
        body@.len() <= u32::MAX,
    ensures
        r@ == be_prefix(body@.len()) + body@,
{
    let n = body.len() as u32;
    let mut frame: Vec<u8> = Vec::new();
    frame.push((n / 16777216) as u8);
    frame.push(((n / 65536) % 256) as u8);
    frame.push(((n / 256) % 256) as u8);
    frame.push((n % 256) as u8);
    let mut i: usize = 0;
    while i < body.len()
        invariant
            i <= body@.len(),
            n as nat == body@.len(),
            frame@ == be_prefix(n as nat) + body@.take(i as int),
        decreases body.len() - i,
    {
        frame.push(body[i]);
        i = i + 1;
        assert(frame@ =~= be_prefix(n as nat) + body@.take(i as int));
    }
    assert(body@.take(body@.len() as int) =~= body@);
    frame
}

/// A frame's prefix declares its body's length.
pub proof fn lemma_prefix_round_trip(n: nat)
    requires
        n <= u32::MAX,
    ensures
        be_prefix(n).len() == 4,
        be_u32(be_prefix(n)) == n,
{
    let p = be_prefix(n);
    assert(p[0] as nat == n / 16777216);
    assert(p[1] as nat == (n / 65536) % 256);
    assert(p[2] as nat == (n / 256) % 256);
    assert(p[3] as nat == n % 256);
    assert((n / 16777216) * 16777216 + ((n / 65536) % 256) * 65536 + ((n / 256) % 256) * 256 + n % 256 == n) by (nonlinear_arith)
        requires
            n <= u32::MAX,
    ;
}

} // verus!
