//! Character-level text helpers shared by every parser in the library.
//!
//! All parsing in this crate works on sequences of `char`s: a `&str` is
//! turned into its characters once, processed by verified code, and turned
//! back into a `String`. Each helper states exactly what it computes.

use vstd::prelude::*;
use vstd::std_specs::iter::IteratorSpec;

verus! {

/// The characters of `s`, in order.
pub fn chars_of(s: &str) -> (r: Vec<char>)
    ensures
        r@ == s@,
{
    broadcast use vstd::string::axiom_spec_iter, vstd::string::next_postcondition;

    let mut out: Vec<char> = Vec::new();
    let mut it = s.chars();
    let ghost total = s@;
    loop
        invariant
            out@.len() <= total.len(),
            out@ == total.take(out@.len() as int),
            it.remaining() == total.skip(out@.len() as int),
        ensures
            out@ == total,
        decreases total.len() - out@.len(),
    {
        match it.next() {
            Some(c) => {
                assert(total.skip(out@.len() as int)[0] == total[out@.len() as int]);
                out.push(c);
                assert(out@ =~= total.take(out@.len() as int));
                assert(total.skip(out@.len() - 1).drop_first() =~= total.skip(out@.len() as int));
            },
            None => {
                assert(out@ =~= total);
                break;
            },
        }
    }
    out
}

/// A `String` holding exactly the characters `v`.
#[verifier::external_body]
pub(crate) fn string_of(v: &[char]) -> (r: String)
    ensures
        r@ == v@,
{
    v.iter().collect()
}

/// How `{:?}` writes a string: quoted, with special characters escaped.
pub uninterp spec fn debug_quoted(s: Seq<char>) -> Seq<char>;

/// `s` written as `{:?}` writes it.
///
/// Formats with `format!("{:?}", s)`; the result is a function of `s`.
#[verifier::external_body]
pub(crate) fn debug_text(s: &str) -> (r: String)
    ensures
        r@ == debug_quoted(s@),
{
    format!("{:?}", s)
}

/// Appends the characters of `s`.
pub fn push_str(out: &mut Vec<char>, s: &str)
    ensures
        final(out)@ == old(out)@ + s@,
{
    let cs = chars_of(s);
    let mut i: usize = 0;
    while i < cs.len()
        invariant
            i <= cs@.len(),
            cs@ == s@,
            out@ == old(out)@ + cs@.take(i as int),
        decreases cs.len() - i,
    {
        out.push(cs[i]);
        i = i + 1;
        assert(out@ =~= old(out)@ + cs@.take(i as int));
    }
    assert(cs@.take(cs@.len() as int) =~= cs@);
}

/// A `String` holding exactly the characters of `s`.
pub fn owned(s: &str) -> (r: String)
    ensures
        r@ == s@,
{
    s.to_owned()
}

/// Unicode `White_Space` (the set `str::trim` and `split_whitespace` use).
pub open spec fn is_ws(c: char) -> bool {
    let u = c as u32;
    ||| 0x09 <= u <= 0x0D
    ||| u == 0x20
    ||| u == 0x85
    ||| u == 0xA0
    ||| u == 0x1680
    ||| 0x2000 <= u <= 0x200A
    ||| u == 0x2028
    ||| u == 0x2029
    ||| u == 0x202F
    ||| u == 0x205F
    ||| u == 0x3000
}

/// Executable test for [`is_ws`].
pub fn is_ws_char(c: char) -> (r: bool)
    ensures
        r == is_ws(c),
{
    let u = c as u32;
    (0x09 <= u && u <= 0x0D) || u == 0x20 || u == 0x85 || u == 0xA0 || u == 0x1680 || (0x2000
        <= u && u <= 0x200A) || u == 0x2028 || u == 0x2029 || u == 0x202F || u == 0x205F || u
        == 0x3000
}

/// `s` with leading whitespace removed.
pub open spec fn trim_start(s: Seq<char>) -> Seq<char>
    decreases s.len(),
{
    if s.len() > 0 && is_ws(s[0]) {
        trim_start(s.drop_first())
    } else {
        s
    }
}

/// `s` with trailing whitespace removed.
pub open spec fn trim_end(s: Seq<char>) -> Seq<char>
    decreases s.len(),
{
    if s.len() > 0 && is_ws(s.last()) {
        trim_end(s.drop_last())
    } else {
        s
    }
}

/// `s` with leading and trailing whitespace removed (what `str::trim` does).
pub open spec fn trim(s: Seq<char>) -> Seq<char> {
    trim_end(trim_start(s))
}

/// Removes leading and trailing whitespace.
pub fn trim_chars(s: &[char]) -> (r: Vec<char>)
    ensures
        r@ == trim(s@),
{
    let n = s.len();
    let mut a: usize = 0;
    assert(s@.skip(0) =~= s@);
    while a < n && is_ws_char(s[a])
        invariant
            a <= n,
            n == s@.len(),
            trim_start(s@) == trim_start(s@.skip(a as int)),
        decreases n - a,
    {
        assert(s@.skip(a as int).drop_first() =~= s@.skip(a + 1));
        a = a + 1;
    }
    let ghost mid = s@.skip(a as int);
    assert(trim_start(s@) == mid) by {
        assert(trim_start(s@) == trim_start(mid));
    }
    let mut b: usize = n;
    while b > a && is_ws_char(s[b - 1])
        invariant
            a <= b <= n,
            n == s@.len(),
            mid == s@.skip(a as int),
            trim_end(mid) == trim_end(s@.subrange(a as int, b as int)),
        decreases b,
    {
        assert(s@.subrange(a as int, b as int).drop_last() =~= s@.subrange(a as int, b - 1));
        b = b - 1;
    }
    assert(s@.skip(a as int) =~= s@.subrange(a as int, n as int));
    let mut out: Vec<char> = Vec::new();
    let mut i = a;
    while i < b
        invariant
            a <= i <= b <= n,
            n == s@.len(),
            out@ =~= s@.subrange(a as int, i as int),
        decreases b - i,
    {
        out.push(s[i]);
        i = i + 1;
    }
    proof {
        let t = s@.subrange(a as int, b as int);
        assert(trim_end(t) == t);
    }
    out
}

/// ASCII lowercase of one character; every other character is unchanged.
pub open spec fn lower(c: char) -> char {
    if 'A' <= c && c <= 'Z' {
        ((c as u32) + 32) as char
    } else {
        c
    }
}

/// Every character of `s` lowered with [`lower`].
pub open spec fn lower_all(s: Seq<char>) -> Seq<char> {
    s.map_values(|c: char| lower(c))
}

/// Executable [`lower`].
pub fn lower_char(c: char) -> (r: char)
    ensures
        r == lower(c),
{
    if 'A' <= c && c <= 'Z' {
        let u = (c as u32) + 32;
        assert(0x61 <= u <= 0x7A);
        char_from_u32_ascii(u)
    } else {
        c
    }
}

/// The ASCII character with code `u`.
pub fn char_from_u32_ascii(u: u32) -> (r: char)
    requires
        u < 128,
    ensures
        r == u as char,
{
    let b: u8 = u as u8;
    b as char
}

/// ASCII-lowercases every character (what `str::to_ascii_lowercase` does).
pub fn lower_chars(s: &[char]) -> (r: Vec<char>)
    ensures
        r@ == lower_all(s@),
{
    let mut out: Vec<char> = Vec::new();
    let mut i: usize = 0;
    while i < s.len()
        invariant
            i <= s@.len(),
            out@ =~= lower_all(s@.take(i as int)),
        decreases s.len() - i,
    {
        let c = lower_char(s[i]);
        out.push(c);
        i = i + 1;
        assert(lower_all(s@.take(i as int)) =~= lower_all(s@.take(i - 1)).push(c));
    }
    assert(s@.take(s@.len() as int) =~= s@);
    out
}

/// Whether two character sequences are equal.
pub fn chars_eq(a: &[char], b: &[char]) -> (r: bool)
    ensures
        r == (a@ == b@),
{
    if a.len() != b.len() {
        return false;
    }
    let mut i: usize = 0;
    while i < a.len()
        invariant
            i <= a@.len(),
            a@.len() == b@.len(),
            forall|j: int| 0 <= j < i ==> a@[j] == b@[j],
        decreases a.len() - i,
    {
        if a[i] != b[i] {
            return false;
        }
        i = i + 1;
    }
    assert(a@ =~= b@);
    true
}

/// Whether `v` is one of `xs`.
pub fn contains_chars(xs: &Vec<Vec<char>>, v: &[char]) -> (r: bool)
    ensures
        r == exists|i: int| 0 <= i < xs@.len() && xs@[i]@ == v@,
{
    let mut i: usize = 0;
    while i < xs.len()
        invariant
            i <= xs@.len(),
            forall|j: int| 0 <= j < i ==> xs@[j]@ != v@,
        decreases xs.len() - i,
    {
        if chars_eq(xs[i].as_slice(), v) {
            return true;
        }
        i = i + 1;
    }
    false
}

/// Whether `s` starts with `p`.
pub open spec fn starts_with(s: Seq<char>, p: Seq<char>) -> bool {
    p.len() <= s.len() && s.take(p.len() as int) == p
}

/// Executable [`starts_with`].
pub fn starts_with_chars(s: &[char], p: &[char]) -> (r: bool)
    ensures
        r == starts_with(s@, p@),
{
    if p.len() > s.len() {
        return false;
    }
    let mut i: usize = 0;
    while i < p.len()
        invariant
            i <= p@.len() <= s@.len(),
            forall|j: int| 0 <= j < i ==> s@[j] == p@[j],
        decreases p.len() - i,
    {
        if s[i] != p[i] {
            assert(s@.take(p@.len() as int)[i as int] != p@[i as int]);
            return false;
        }
        i = i + 1;
    }
    assert(s@.take(p@.len() as int) =~= p@);
    true
}

/// Whether `c` occurs in `s`.
pub fn has_char(s: &[char], c: char) -> (r: bool)
    ensures
        r == s@.contains(c),
{
    let mut i: usize = 0;
    while i < s.len()
        invariant
            i <= s@.len(),
            forall|j: int| 0 <= j < i ==> s@[j] != c,
        decreases s.len() - i,
    {
        if s[i] == c {
            assert(s@[i as int] == c);
            return true;
        }
        i = i + 1;
    }
    false
}

/// Whether `p` occurs as a contiguous run inside `s`.
pub open spec fn contains_run(s: Seq<char>, p: Seq<char>) -> bool {
    exists|k: int| 0 <= k && k + p.len() <= s.len() && #[trigger] s.subrange(k, k + p.len()) == p
}

/// Executable [`contains_run`].
pub fn contains_run_chars(s: &[char], p: &[char]) -> (r: bool)
    ensures
        r == contains_run(s@, p@),
{
    if p.len() > s.len() {
        return false;
    }
    if p.len() == 0 {
        assert(s@.subrange(0int, 0int + p@.len()) =~= p@);
        return true;
    }
    let last = s.len() - p.len();
    let mut k: usize = 0;
    while k <= last
        invariant
            k <= last + 1,
            s@.len() <= usize::MAX,
            last == s@.len() - p@.len(),
            0 < p@.len() <= s@.len(),
            forall|m: int| 0 <= m < k ==> #[trigger] s@.subrange(m, m + p@.len()) != p@,
        decreases last + 1 - k,
    {
        let mut i: usize = 0;
        let mut same = true;
        while i < p.len()
            invariant
                i <= p@.len(),
                k <= last,
                s@.len() <= usize::MAX,
                last == s@.len() - p@.len(),
                0 < p@.len() <= s@.len(),
                k + p@.len() <= s@.len(),
                same == forall|j: int| 0 <= j < i ==> s@[k + j] == p@[j],
            decreases p.len() - i,
        {
            if s[k + i] != p[i] {
                same = false;
            }
            i = i + 1;
        }
        if same {
            assert(s@.subrange(k as int, k + p@.len()) =~= p@);
            return true;
        }
        assert(s@.subrange(k as int, k + p@.len()) != p@) by {
            let j = choose|j: int| 0 <= j < p@.len() && s@[k + j] != p@[j];
            assert(s@.subrange(k as int, k + p@.len())[j] != p@[j]);
        }
        k = k + 1;
    }
    false
}

/// The number of bytes `c` takes in UTF-8.
pub open spec fn utf8_width(c: char) -> nat {
    let u = c as u32;
    if u < 0x80 {
        1
    } else if u < 0x800 {
        2
    } else if u < 0x10000 {
        3
    } else {
        4
    }
}

/// The length in bytes of the UTF-8 encoding of `s` (what `str::len` gives).
pub open spec fn utf8_len(s: Seq<char>) -> nat
    decreases s.len(),
{
    if s.len() == 0 {
        0
    } else {
        utf8_len(s.drop_last()) + utf8_width(s.last())
    }
}

/// Whether the UTF-8 encoding of `s` takes at most `limit` bytes.
pub fn utf8_len_at_most(s: &[char], limit: u64) -> (r: bool)
    ensures
        r == (utf8_len(s@) <= limit),
{
    let mut total: u64 = 0;
    let mut i: usize = 0;
    while i < s.len()
        invariant
            i <= s@.len(),
            total as nat == utf8_len(s@.take(i as int)),
            total <= limit,
        decreases s.len() - i,
    {
        let u = s[i] as u32;
        let w: u64 = if u < 0x80 {
            1
        } else if u < 0x800 {
            2
        } else if u < 0x10000 {
            3
        } else {
            4
        };
        assert(s@.take(i + 1).drop_last() =~= s@.take(i as int));
        if w > limit - total {
            proof {
                lemma_utf8_len_prefix(s@, i + 1);
            }
            return false;
        }
        total = total + w;
        i = i + 1;
    }
    assert(s@.take(s@.len() as int) =~= s@);
    true
}

/// A prefix never takes more UTF-8 bytes than the whole.
pub proof fn lemma_utf8_len_prefix(s: Seq<char>, i: int)
    requires
        0 <= i <= s.len(),
    ensures
        utf8_len(s.take(i)) <= utf8_len(s),
    decreases s.len() - i,
{
    if i < s.len() {
        lemma_utf8_len_prefix(s, i + 1);
        assert(s.take(i + 1).drop_last() =~= s.take(i));
    } else {
        assert(s.take(i) =~= s);
    }
}

// ── decimal numbers ─────────────────────────────────────────────────────────
/// Whether `c` is an ASCII decimal digit.
pub open spec fn is_digit(c: char) -> bool {
    '0' <= c && c <= '9'
}

/// The value of an ASCII decimal digit.
pub open spec fn digit_value(c: char) -> nat {
    ((c as u32) - 48) as nat
}

/// Every character of `s` is an ASCII decimal digit.
pub open spec fn all_digits(s: Seq<char>) -> bool {
    forall|i: int| 0 <= i < s.len() ==> is_digit(#[trigger] s[i])
}

/// The number written by the decimal digits `s` (most significant first).
pub open spec fn dec_value(s: Seq<char>) -> nat
    decreases s.len(),
{
    if s.len() == 0 {
        0
    } else {
        dec_value(s.drop_last()) * 10 + digit_value(s.last())
    }
}

/// The ASCII digit for `d < 10`.
pub open spec fn digit_char(d: nat) -> char {
    ((d + 48) as u32) as char
}

/// The shortest decimal spelling of `n`.
pub open spec fn dec_digits(n: nat) -> Seq<char>
    decreases n,
{
    if n < 10 {
        seq![digit_char(n)]
    } else {
        dec_digits(n / 10).push(digit_char(n % 10))
    }
}

/// Digit characters round-trip through their values.
pub proof fn lemma_digit_char(d: nat)
    requires
        d < 10,
    ensures
        is_digit(digit_char(d)),
        digit_value(digit_char(d)) == d,
{
    let u = (d + 48) as u32;
    assert(vstd::utf8::is_scalar(u));
}

/// A longer digit string never denotes a smaller number.
pub proof fn lemma_dec_value_prefix(s: Seq<char>, i: int)
    requires
        0 <= i <= s.len(),
        all_digits(s),
    ensures
        dec_value(s.take(i)) <= dec_value(s),
    decreases s.len() - i,
{
    if i < s.len() {
        lemma_dec_value_prefix(s, i + 1);
        assert(s.take(i + 1).drop_last() =~= s.take(i));
    } else {
        assert(s.take(i) =~= s);
    }
}

/// Parses a non-empty string of ASCII digits as a `u64`.
///
/// `None` when `s` is empty, has a non-digit, or its value exceeds `u64::MAX`.
pub fn parse_u64_digits(s: &[char]) -> (r: Option<u64>)
    ensures
        r is Some <==> (s@.len() > 0 && all_digits(s@) && dec_value(s@) <= u64::MAX),
        r matches Some(v) ==> v as nat == dec_value(s@),
{
    if s.len() == 0 {
        return None;
    }
    let mut i: usize = 0;
    while i < s.len()
        invariant
            i <= s@.len(),
            forall|j: int| 0 <= j < i ==> is_digit(#[trigger] s@[j]),
        decreases s.len() - i,
    {
        if !('0' <= s[i] && s[i] <= '9') {
            assert(!is_digit(s@[i as int]));
            return None;
        }
        i = i + 1;
    }
    assert(all_digits(s@));
    let mut acc: u64 = 0;
    let mut k: usize = 0;
    while k < s.len()
        invariant
            k <= s@.len(),
            all_digits(s@),
            acc as nat == dec_value(s@.take(k as int)),
        decreases s.len() - k,
    {
        let d = ((s[k] as u32) - 48) as u64;
        assert(s@.take(k + 1).drop_last() =~= s@.take(k as int));
        if acc > 1844674407370955161 || (acc == 1844674407370955161 && d > 5) {
            proof {
                lemma_dec_value_prefix(s@, k + 1);
            }
            return None;
        }
        acc = acc * 10 + d;
        k = k + 1;
    }
    assert(s@.take(s@.len() as int) =~= s@);
    Some(acc)
}

/// Appends the decimal spelling of `n`.
pub fn push_dec(out: &mut Vec<char>, n: u64)
    ensures
        final(out)@ == old(out)@ + dec_digits(n as nat),
    decreases n,
{
    if n >= 10 {
        push_dec(out, n / 10);
    }
    let d = (n % 10) as u32 + 48;
    let c = char_from_u32_ascii(d);
    out.push(c);
    proof {
        if n >= 10 {
            assert(dec_digits(n as nat) == dec_digits((n / 10) as nat).push(digit_char((n % 10) as nat)));
        }
    }
}

/// The shortest octal spelling of `n`.
pub open spec fn oct_digits(n: nat) -> Seq<char>
    decreases n,
{
    if n < 8 {
        seq![digit_char(n)]
    } else {
        oct_digits(n / 8).push(digit_char(n % 8))
    }
}

/// Appends the octal spelling of `n`.
pub fn push_oct(out: &mut Vec<char>, n: u64)
    ensures
        final(out)@ == old(out)@ + oct_digits(n as nat),
    decreases n,
{
    if n >= 8 {
        push_oct(out, n / 8);
    }
    let d = (n % 8) as u32 + 48;
    let c = char_from_u32_ascii(d);
    out.push(c);
    proof {
        if n >= 8 {
            assert(oct_digits(n as nat) == oct_digits((n / 8) as nat).push(digit_char((n % 8) as nat)));
        }
    }
}

/// The decimal spelling of `n` (what `u64::to_string` gives).
pub fn u64_to_dec(n: u64) -> (r: String)
    ensures
        r@ == dec_digits(n as nat),
{
    let mut v: Vec<char> = Vec::new();
    push_dec(&mut v, n);
    assert(v@ =~= dec_digits(n as nat));
    string_of(v.as_slice())
}

/// Decimal spellings are digit strings that read back as the same number.
pub proof fn lemma_dec_round_trip(n: nat)
    ensures
        all_digits(dec_digits(n)),
        dec_digits(n).len() > 0,
        dec_value(dec_digits(n)) == n,
    decreases n,
{
    lemma_digit_char(n % 10);
    if n >= 10 {
        lemma_dec_round_trip(n / 10);
        let s = dec_digits(n);
        assert(s.drop_last() =~= dec_digits(n / 10));
        assert(s.last() == digit_char(n % 10));
        assert(dec_value(s) == dec_value(s.drop_last()) * 10 + digit_value(s.last()));
        assert(dec_value(s.drop_last()) == n / 10);
        assert(n == (n / 10) * 10 + n % 10) by (nonlinear_arith);
    } else {
        let s = dec_digits(n);
        assert(s.drop_last() =~= Seq::<char>::empty());
        assert(dec_value(Seq::<char>::empty()) == 0);
        assert(s.last() == digit_char(n));
        assert(dec_value(s) == dec_value(s.drop_last()) * 10 + digit_value(s.last()));
    }
}

/// Index of the last occurrence of `c` in `s`, or `-1`.
pub open spec fn last_index_of(s: Seq<char>, c: char) -> int
    decreases s.len(),
{
    if s.len() == 0 {
        -1
    } else if s.last() == c {
        s.len() - 1
    } else {
        last_index_of(s.drop_last(), c)
    }
}

/// `last_index_of` is `-1` or a valid index holding `c`.
pub proof fn lemma_last_index_of(s: Seq<char>, c: char)
    ensures
        -1 <= last_index_of(s, c) < s.len(),
        last_index_of(s, c) >= 0 ==> s[last_index_of(s, c)] == c,
        last_index_of(s, c) == -1 <==> !s.contains(c),
    decreases s.len(),
{
    if s.len() > 0 {
        lemma_last_index_of(s.drop_last(), c);
        if s.last() != c && last_index_of(s, c) == -1 {
            assert(!s.contains(c)) by {
                if s.contains(c) {
                    let k = choose|k: int| 0 <= k < s.len() && s[k] == c;
                    assert(k != s.len() - 1);
                    assert(s.drop_last()[k] == c);
                }
            }
        }
        if s.last() == c {
            assert(s.contains(c)) by {
                assert(s[s.len() - 1] == c);
            }
        }
        if last_index_of(s, c) >= 0 && s.last() != c {
            assert(s.drop_last().contains(c));
            let k = choose|k: int| 0 <= k < s.len() - 1 && s.drop_last()[k] == c;
            assert(s[k] == c);
        }
    }
}

/// Executable [`last_index_of`] (as an option).
pub fn last_index_of_char(s: &[char], c: char) -> (r: Option<usize>)
    ensures
        r is None <==> last_index_of(s@, c) == -1,
        r matches Some(k) ==> k as int == last_index_of(s@, c),
{
    let mut i: usize = s.len();
    assert(s@.take(s@.len() as int) =~= s@);
    while i > 0
        invariant
            i <= s@.len(),
            last_index_of(s@, c) == last_index_of(s@.take(i as int), c),
        decreases i,
    {
        assert(s@.take(i as int).drop_last() =~= s@.take(i - 1));
        if s[i - 1] == c {
            return Some(i - 1);
        }
        i = i - 1;
    }
    None
}

/// The characters of `s` from index `a` (inclusive) to `b` (exclusive).
pub fn sub_chars(s: &[char], a: usize, b: usize) -> (r: Vec<char>)
    requires
        a <= b <= s@.len(),
    ensures
        r@ == s@.subrange(a as int, b as int),
{
    let mut out: Vec<char> = Vec::new();
    let mut i = a;
    while i < b
        invariant
            a <= i <= b <= s@.len(),
            out@ =~= s@.subrange(a as int, i as int),
        decreases b - i,
    {
        out.push(s[i]);
        i = i + 1;
    }
    out
}

/// The value `u16::from_str` gives: an optional `+`, then a non-empty run of
/// ASCII digits denoting at most 65535.
pub open spec fn u16_value(s: Seq<char>) -> Option<nat> {
    let d = if s.len() > 0 && s[0] == '+' {
        s.drop_first()
    } else {
        s
    };
    if d.len() > 0 && all_digits(d) && dec_value(d) <= 65535 {
        Some(dec_value(d))
    } else {
        None
    }
}

/// Parses a `u16` the way `str::parse::<u16>` does.
pub fn parse_u16(s: &[char]) -> (r: Option<u16>)
    ensures
        r is Some <==> u16_value(s@) is Some,
        r matches Some(v) ==> Some(v as nat) == u16_value(s@),
{
    let d = if s.len() > 0 && s[0] == '+' {
        sub_chars(s, 1, s.len())
    } else {
        sub_chars(s, 0, s.len())
    };
    assert(s@.subrange(0, s@.len() as int) =~= s@);
    assert(s@.len() > 0 ==> s@.subrange(1, s@.len() as int) =~= s@.drop_first());
    match parse_u64_digits(d.as_slice()) {
        Some(v) => {
            if v <= 65535 {
                Some(v as u16)
            } else {
                None
            }
        },
        None => None,
    }
}

// ── lines and fields ────────────────────────────────────────────────────────
/// `s` without one trailing `'\r'`.
pub open spec fn strip_cr(s: Seq<char>) -> Seq<char> {
    if s.len() > 0 && s.last() == '\r' {
        s.drop_last()
    } else {
        s
    }
}

/// The pieces of `s` between occurrences of `d` (what `str::split` yields;
/// there is always at least one piece, possibly empty).
pub open spec fn split_on(s: Seq<char>, d: char) -> Seq<Seq<char>>
    decreases s.len(),
{
    if s.len() == 0 {
        seq![Seq::<char>::empty()]
    } else {
        let rest = split_on(s.drop_last(), d);
        if s.last() == d {
            rest.push(Seq::<char>::empty())
        } else {
            rest.update(rest.len() - 1, rest.last().push(s.last()))
        }
    }
}

/// The pieces of `s` between `'\n'` characters.
pub open spec fn split_nl(s: Seq<char>) -> Seq<Seq<char>> {
    split_on(s, '\n')
}

/// `split_on` always yields at least one piece.
pub proof fn lemma_split_on_nonempty(s: Seq<char>, d: char)
    ensures
        split_on(s, d).len() >= 1,
    decreases s.len(),
{
    if s.len() > 0 {
        lemma_split_on_nonempty(s.drop_last(), d);
    }
}

/// Splits `s` at every `d` (see [`split_on`]).
pub fn split_chars(s: &[char], d: char) -> (r: Vec<Vec<char>>)
    ensures
        r@.len() == split_on(s@, d).len(),
        forall|i: int| 0 <= i < r@.len() ==> #[trigger] r@[i]@ == split_on(s@, d)[i],
{
    let mut pieces: Vec<Vec<char>> = Vec::new();
    let mut cur: Vec<char> = Vec::new();
    let mut i: usize = 0;
    while i < s.len()
        invariant
            i <= s@.len(),
            pieces@.len() + 1 == split_on(s@.take(i as int), d).len(),
            forall|j: int|
                0 <= j < pieces@.len() ==> #[trigger] pieces@[j]@ == split_on(
                    s@.take(i as int),
                    d,
                )[j],
            cur@ == split_on(s@.take(i as int), d).last(),
        decreases s.len() - i,
    {
        proof {
            lemma_split_on_nonempty(s@.take(i as int), d);
        }
        assert(s@.take(i + 1).drop_last() =~= s@.take(i as int));
        if s[i] == d {
            let done = cur;
            pieces.push(done);
            cur = Vec::new();
        } else {
            cur.push(s[i]);
        }
        i = i + 1;
    }
    assert(s@.take(s@.len() as int) =~= s@);
    pieces.push(cur);
    pieces
}

/// The lines of `s` as `str::lines` yields them: split at `'\n'`, a final
/// empty piece dropped, and one trailing `'\r'` removed from each line.
pub open spec fn lines(s: Seq<char>) -> Seq<Seq<char>> {
    let pieces = split_nl(s);
    let kept = if pieces.last().len() == 0 {
        pieces.drop_last()
    } else {
        pieces
    };
    kept.map_values(|l: Seq<char>| strip_cr(l))
}

/// Splits `s` into its lines (see [`lines`]).
pub fn lines_of(s: &[char]) -> (r: Vec<Vec<char>>)
    ensures
        r@.len() == lines(s@).len(),
        forall|i: int| 0 <= i < r@.len() ==> #[trigger] r@[i]@ == lines(s@)[i],
{
    let mut kept: Vec<Vec<char>> = split_chars(s, '\n');
    proof {
        lemma_split_on_nonempty(s@, '\n');
    }
    let n = kept.len();
    if kept[n - 1].len() == 0 {
        kept.pop();
    }
    let ghost pieces_spec = split_nl(s@);
    let ghost kept_spec = if pieces_spec.last().len() == 0 {
        pieces_spec.drop_last()
    } else {
        pieces_spec
    };
    assert(kept@.len() == kept_spec.len());
    assert(forall|j: int| 0 <= j < kept@.len() ==> #[trigger] kept@[j]@ == kept_spec[j]);
    let mut out: Vec<Vec<char>> = Vec::new();
    let mut k: usize = 0;
    while k < kept.len()
        invariant
            k <= kept@.len(),
            kept@.len() == kept_spec.len(),
            forall|j: int| 0 <= j < kept@.len() ==> #[trigger] kept@[j]@ == kept_spec[j],
            out@.len() == k,
            forall|j: int| 0 <= j < k ==> #[trigger] out@[j]@ == strip_cr(kept_spec[j]),
        decreases kept.len() - k,
    {
        let line = &kept[k];
        let n = line.len();
        let mut l: Vec<char> = Vec::new();
        let m = if n > 0 && line[n - 1] == '\r' {
            n - 1
        } else {
            n
        };
        let mut t: usize = 0;
        while t < m
            invariant
                t <= m <= n,
                n == line@.len(),
                l@ =~= line@.take(t as int),
            decreases m - t,
        {
            l.push(line[t]);
            t = t + 1;
        }
        assert(l@ =~= strip_cr(kept_spec[k as int]));
        out.push(l);
        k = k + 1;
    }
    out
}

/// The pieces of `s` between whitespace characters (empty pieces kept).
pub open spec fn split_ws_pieces(s: Seq<char>) -> Seq<Seq<char>>
    decreases s.len(),
{
    if s.len() == 0 {
        seq![Seq::<char>::empty()]
    } else {
        let rest = split_ws_pieces(s.drop_last());
        if is_ws(s.last()) {
            rest.push(Seq::<char>::empty())
        } else {
            rest.update(rest.len() - 1, rest.last().push(s.last()))
        }
    }
}

/// `ps` without its empty members.
pub open spec fn drop_empty(ps: Seq<Seq<char>>) -> Seq<Seq<char>>
    decreases ps.len(),
{
    if ps.len() == 0 {
        Seq::empty()
    } else if ps.last().len() == 0 {
        drop_empty(ps.drop_last())
    } else {
        drop_empty(ps.drop_last()).push(ps.last())
    }
}

/// The whitespace-separated words of `s` (what `str::split_whitespace` yields).
pub open spec fn words(s: Seq<char>) -> Seq<Seq<char>> {
    drop_empty(split_ws_pieces(s))
}

proof fn lemma_split_ws_nonempty(s: Seq<char>)
    ensures
        split_ws_pieces(s).len() >= 1,
    decreases s.len(),
{
    if s.len() > 0 {
        lemma_split_ws_nonempty(s.drop_last());
    }
}

proof fn lemma_trim_end_last(s: Seq<char>)
    ensures
        trim_end(s).len() > 0 ==> !is_ws(trim_end(s).last()),
    decreases s.len(),
{
    if s.len() > 0 && is_ws(s.last()) {
        lemma_trim_end_last(s.drop_last());
    }
}

/// A line that is not blank after trimming has a first word.
pub proof fn lemma_trimmed_has_word(line: Seq<char>)
    ensures
        trim(line).len() > 0 ==> words(trim(line)).len() >= 1,
{
    let t = trim(line);
    lemma_trim_end_last(trim_start(line));
    if t.len() > 0 {
        lemma_split_ws_nonempty(t.drop_last());
        let ps = split_ws_pieces(t);
        assert(ps.last().len() > 0);
        assert(drop_empty(ps) == drop_empty(ps.drop_last()).push(ps.last()));
    }
}

/// Splits `s` into its whitespace-separated words (see [`words`]).
pub fn words_of(s: &[char]) -> (r: Vec<Vec<char>>)
    ensures
        r@.len() == words(s@).len(),
        forall|i: int| 0 <= i < r@.len() ==> #[trigger] r@[i]@ == words(s@)[i],
{
    let mut pieces: Vec<Vec<char>> = Vec::new();
    let mut cur: Vec<char> = Vec::new();
    let mut i: usize = 0;
    while i < s.len()
        invariant
            i <= s@.len(),
            pieces@.len() + 1 == split_ws_pieces(s@.take(i as int)).len(),
            forall|j: int|
                0 <= j < pieces@.len() ==> #[trigger] pieces@[j]@ == split_ws_pieces(
                    s@.take(i as int),
                )[j],
            cur@ == split_ws_pieces(s@.take(i as int)).last(),
        decreases s.len() - i,
    {
        proof {
            lemma_split_ws_nonempty(s@.take(i as int));
        }
        assert(s@.take(i + 1).drop_last() =~= s@.take(i as int));
        if is_ws_char(s[i]) {
            let done = cur;
            pieces.push(done);
            cur = Vec::new();
        } else {
            cur.push(s[i]);
        }
        i = i + 1;
    }
    assert(s@.take(s@.len() as int) =~= s@);
    pieces.push(cur);
    let ghost ps = split_ws_pieces(s@);
    let mut out: Vec<Vec<char>> = Vec::new();
    let mut k: usize = 0;
    while k < pieces.len()
        invariant
            k <= pieces@.len(),
            pieces@.len() == ps.len(),
            forall|j: int| 0 <= j < pieces@.len() ==> #[trigger] pieces@[j]@ == ps[j],
            out@.len() == drop_empty(ps.take(k as int)).len(),
            forall|j: int| 0 <= j < out@.len() ==> #[trigger] out@[j]@ == drop_empty(ps.take(k as int))[j],
        decreases pieces.len() - k,
    {
        assert(ps.take(k + 1).drop_last() =~= ps.take(k as int));
        if pieces[k].len() > 0 {
            out.push(pieces[k].clone());
        }
        k = k + 1;
    }
    assert(ps.take(ps.len() as int) =~= ps);
    out
}

// ── ordering and sorted sets ────────────────────────────────────────────────
/// Lexicographic order on character sequences (code-point order, which is
/// also the byte order of their UTF-8 encodings — the order of `String`).
pub open spec fn lex_lt(a: Seq<char>, b: Seq<char>) -> bool
    decreases a.len(),
{
    if a.len() == 0 {
        b.len() > 0
    } else if b.len() == 0 {
        false
    } else if a[0] != b[0] {
        (a[0] as u32) < (b[0] as u32)
    } else {
        lex_lt(a.drop_first(), b.drop_first())
    }
}

/// `lex_lt` is irreflexive.
pub proof fn lemma_lex_irreflexive(a: Seq<char>)
    ensures
        !lex_lt(a, a),
    decreases a.len(),
{
    if a.len() > 0 {
        lemma_lex_irreflexive(a.drop_first());
    }
}

/// `lex_lt` is transitive.
pub proof fn lemma_lex_transitive(a: Seq<char>, b: Seq<char>, c: Seq<char>)
    requires
        lex_lt(a, b),
        lex_lt(b, c),
    ensures
        lex_lt(a, c),
    decreases a.len(),
{
    if a.len() > 0 && b.len() > 0 && c.len() > 0 {
        if a[0] == b[0] && b[0] == c[0] {
            lemma_lex_transitive(a.drop_first(), b.drop_first(), c.drop_first());
        } else {
            broadcast use vstd::utf8::char_u32_cast;
            assert((a[0] as u32) <= (b[0] as u32));
            assert((b[0] as u32) <= (c[0] as u32));
            if a[0] == c[0] {
                assert(a[0] as u32 == c[0] as u32);
                assert(a[0] == b[0]);
            }
        }
    }
}

/// `lex_lt` is total on distinct sequences.
pub proof fn lemma_lex_total(a: Seq<char>, b: Seq<char>)
    requires
        a != b,
    ensures
        lex_lt(a, b) || lex_lt(b, a),
    decreases a.len(),
{
    if a.len() > 0 && b.len() > 0 {
        if a[0] == b[0] {
            if a.drop_first() == b.drop_first() {
                assert(a =~= seq![a[0]] + a.drop_first());
                assert(b =~= seq![b[0]] + b.drop_first());
            }
            lemma_lex_total(a.drop_first(), b.drop_first());
        } else {
            broadcast use vstd::utf8::char_u32_cast;
            if a[0] as u32 == b[0] as u32 {
                let u = a[0] as u32;
                vstd::utf8::char_u32_cast(a[0], u);
                vstd::utf8::char_u32_cast(b[0], u);
            }
        }
    } else if a.len() == 0 && b.len() == 0 {
        assert(a =~= b);
    }
}

/// Executable [`lex_lt`].
pub fn lex_lt_chars(a: &[char], b: &[char]) -> (r: bool)
    ensures
        r == lex_lt(a@, b@),
{
    let mut i: usize = 0;
    assert(a@.skip(0) =~= a@);
    assert(b@.skip(0) =~= b@);
    while i < a.len() && i < b.len() && a[i] == b[i]
        invariant
            i <= a@.len(),
            i <= b@.len(),
            lex_lt(a@, b@) == lex_lt(a@.skip(i as int), b@.skip(i as int)),
        decreases a.len() - i,
    {
        assert(a@.skip(i as int).drop_first() =~= a@.skip(i + 1));
        assert(b@.skip(i as int).drop_first() =~= b@.skip(i + 1));
        i = i + 1;
    }
    if i == a.len() {
        i < b.len()
    } else if i == b.len() {
        false
    } else {
        (a[i] as u32) < (b[i] as u32)
    }
}

/// A strictly increasing sequence: sorted and free of duplicates.
pub open spec fn strictly_sorted(v: Seq<Seq<char>>) -> bool {
    forall|i: int, j: int| 0 <= i < j < v.len() ==> lex_lt(#[trigger] v[i], #[trigger] v[j])
}

/// The character sequences held by a vector of character vectors.
pub open spec fn views(v: Seq<Vec<char>>) -> Seq<Seq<char>> {
    v.map_values(|x: Vec<char>| x@)
}

/// Inserts `x` into a strictly sorted vector, keeping it strictly sorted
/// (nothing is added when `x` is already present).
pub fn insert_sorted(v: &mut Vec<Vec<char>>, x: Vec<char>)
    requires
        strictly_sorted(views(old(v)@)),
    ensures
        strictly_sorted(views(final(v)@)),
        views(final(v)@).to_set() == views(old(v)@).to_set().insert(x@),
{
    let ghost old_views = views(v@);
    let mut k: usize = 0;
    while k < v.len() && lex_lt_chars(v[k].as_slice(), x.as_slice())
        invariant
            k <= v@.len(),
            views(v@) == old_views,
            strictly_sorted(old_views),
            forall|i: int| 0 <= i < k ==> lex_lt(#[trigger] old_views[i], x@),
        decreases v.len() - k,
    {
        k = k + 1;
    }
    if k < v.len() && chars_eq(v[k].as_slice(), x.as_slice()) {
        assert(old_views[k as int] == x@);
        assert(views(v@).to_set().insert(x@) =~= views(v@).to_set()) by {
            assert(views(v@).to_set().contains(x@)) by {
                assert(views(v@)[k as int] == x@);
            }
        }
        return;
    }
    proof {
        if k < v@.len() {
            assert(!lex_lt(old_views[k as int], x@));
            assert(old_views[k as int] != x@);
            lemma_lex_total(old_views[k as int], x@);
        }
    }
    let ghost xv = x@;
    v.insert(k, x);
    let ghost nv = views(v@);
    assert(nv =~= old_views.insert(k as int, xv));
    assert forall|i: int, j: int| 0 <= i < j < nv.len() implies lex_lt(#[trigger] nv[i], #[trigger] nv[j]) by {
        if j < k {
            assert(nv[i] == old_views[i] && nv[j] == old_views[j]);
        } else if j == k {
            assert(nv[j] == xv);
        } else if i < k {
            assert(nv[i] == old_views[i] && nv[j] == old_views[j - 1]);
            assert(lex_lt(old_views[i], xv));
            if j - 1 > k {
                assert(lex_lt(old_views[k as int], old_views[j - 1]));
                lemma_lex_transitive(xv, old_views[k as int], old_views[j - 1]);
            }
            lemma_lex_transitive(old_views[i], xv, old_views[j - 1]);
        } else if i == k {
            assert(nv[i] == xv && nv[j] == old_views[j - 1]);
            if j - 1 > k {
                assert(lex_lt(old_views[k as int], old_views[j - 1]));
                lemma_lex_transitive(xv, old_views[k as int], old_views[j - 1]);
            }
        } else {
            assert(nv[i] == old_views[i - 1] && nv[j] == old_views[j - 1]);
        }
    }
    assert(nv.to_set() =~= old_views.to_set().insert(xv)) by {
        assert forall|e: Seq<char>| nv.to_set().contains(e) implies old_views.to_set().insert(xv).contains(e) by {
            let i = choose|i: int| 0 <= i < nv.len() && nv[i] == e;
            if i < k {
                assert(old_views[i] == e);
            } else if i > k {
                assert(old_views[i - 1] == e);
            }
        }
        assert forall|e: Seq<char>| old_views.to_set().insert(xv).contains(e) implies nv.to_set().contains(e) by {
            if e == xv {
                assert(nv[k as int] == e);
            } else {
                let i = choose|i: int| 0 <= i < old_views.len() && old_views[i] == e;
                if i < k {
                    assert(nv[i] == e);
                } else {
                    assert(nv[i + 1] == e);
                }
            }
        }
    }
}

} // verus!
