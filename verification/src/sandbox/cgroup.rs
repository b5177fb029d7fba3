//! cgroup v2 resource limits.
//!
//! [`CpuMax`] / [`MemoryMax`] parse bundle-declared `cpu_max` /
//! `memory_max` strings into the exact text the kernel expects in
//! `cpu.max` / `memory.max`. Parsing is strict and total: a malformed, zero,
//! overflowing, or out-of-range value is [`SandboxError::InvalidLimit`] — it
//! is never interpreted as "unlimited".

use vstd::prelude::*;

use crate::sandbox::error::SandboxError;
use crate::text::{
    all_digits, chars_of, debug_quoted, debug_text, dec_digits, dec_value, is_digit, lines, lines_of, owned,
    parse_u64_digits, push_dec, push_str, starts_with, starts_with_chars, string_of, trim, trim_chars,
};

verus! {

/// cgroup v2 `cpu.max` enforcement period (microseconds).
pub const CPU_PERIOD_US: u64 = 100_000;

/// Upper bound on a declared CPU percentage (one core-equivalent).
pub const MAX_CPU_PERCENT: u64 = 100;

/// Sanity ceiling on a declared memory limit (1 TiB).
pub const MAX_MEMORY_BYTES: u64 = 1_099_511_627_776;

/// The accepted percentage of a `cpu_max` declaration, if any: after
/// trimming, `<digits>%` with a value in `1..=100`.
pub open spec fn cpu_percent(s: Seq<char>) -> Option<nat> {
    let t = trim(s);
    if t.len() >= 2 && t.last() == '%' && all_digits(t.drop_last()) {
        let v = dec_value(t.drop_last());
        if 1 <= v <= MAX_CPU_PERCENT {
            Some(v)
        } else {
            None
        }
    } else {
        None
    }
}

/// The refusal text for a `cpu_max` declaration that [`cpu_percent`]
/// refuses: after trimming, a missing `%`, a non-integer or overflowing
/// percentage, zero, or more than 100%.
pub open spec fn cpu_error(s: Seq<char>) -> Seq<char> {
    let t = trim(s);
    let d = t.drop_last();
    if t.len() == 0 || t.last() != '%' {
        "cpu_max "@ + debug_quoted(t) + ": expected \"<n>%\""@
    } else if !(d.len() > 0 && all_digits(d)) {
        "cpu_max "@ + debug_quoted(t) + ": non-integer percentage"@
    } else if dec_value(d) > u64::MAX {
        "cpu_max "@ + debug_quoted(t) + ": percentage overflow"@
    } else if dec_value(d) == 0 {
        "cpu_max \"0%\": a zero quota would wedge the action"@
    } else {
        "cpu_max "@ + dec_digits(dec_value(d)) + "% exceeds the 100% ceiling"@
    }
}

/// A validated CPU ceiling, ready to write to cgroup v2 `cpu.max`.
#[derive(Debug, Clone, Copy, PartialEq, Eq, Structural)]
pub struct CpuMax {
    percent: u64,
}

/// Builds `prefix ++ {:?} of shown ++ suffix` as a `String` (error messages).
fn quoted_message(prefix: &str, shown: &[char], suffix: &str) -> (r: String)
    ensures
        r@ == prefix@ + debug_quoted(shown@) + suffix@,
{
    let text = string_of(shown);
    let q = debug_text(text.as_str());
    let mut m: Vec<char> = Vec::new();
    push_str(&mut m, prefix);
    push_str(&mut m, q.as_str());
    push_str(&mut m, suffix);
    string_of(m.as_slice())
}

/// Builds `prefix ++ decimal n ++ suffix` as a `String` (error messages).
fn number_message(prefix: &str, n: u64, suffix: &str) -> (r: String)
    ensures
        r@ == prefix@ + dec_digits(n as nat) + suffix@,
{
    let mut m: Vec<char> = Vec::new();
    push_str(&mut m, prefix);
    push_dec(&mut m, n);
    push_str(&mut m, suffix);
    string_of(m.as_slice())
}

/// Whether `s` is a non-empty run of ASCII digits.
fn all_digit_chars(s: &[char]) -> (r: bool)
    ensures
        r == (s@.len() > 0 && all_digits(s@)),
{
    if s.len() == 0 {
        return false;
    }
    let mut i: usize = 0;
    while i < s.len()
        invariant
            i <= s@.len(),
            forall|j: int| 0 <= j < i ==> is_digit(#[trigger] s@[j]),
        decreases s.len() - i,
    {
        if !('0' <= s[i] && s[i] <= '9') {
            assert(!is_digit(s@[i as int]));
            return false;
        }
        i = i + 1;
    }
    true
}

impl CpuMax {
    /// The percentage of one core this ceiling grants.
    pub closed spec fn spec_percent(self) -> nat {
        self.percent as nat
    }

    #[verifier::type_invariant]
    spec fn well_formed(self) -> bool {
        1 <= self.percent <= MAX_CPU_PERCENT
    }

    /// Parse a `"<n>%"` CPU ceiling (e.g. `"10%"`), surrounding whitespace allowed.
    ///
    /// Errors with `InvalidLimit` if not `<positive integer>%`, if zero, or
    /// above 100%.
    pub fn parse(s: &str) -> (r: Result<CpuMax, SandboxError>)
        ensures
            r is Ok <==> cpu_percent(s@) is Some,
            r matches Ok(c) ==> Some(c.spec_percent()) == cpu_percent(s@),
            r matches Err(e) ==> (e matches SandboxError::InvalidLimit(m) && m@ == cpu_error(s@)),
    {
        let raw = chars_of(s);
        let t = trim_chars(raw.as_slice());
        let n = t.len();
        if n == 0 || t[n - 1] != '%' {
            return Err(SandboxError::InvalidLimit(quoted_message("cpu_max ", t.as_slice(), ": expected \"<n>%\"")));
        }
        let mut digits: Vec<char> = Vec::new();
        let mut i: usize = 0;
        while i < n - 1
            invariant
                i <= n - 1,
                n == t@.len(),
                digits@ =~= t@.take(i as int),
            decreases n - 1 - i,
        {
            digits.push(t[i]);
            i = i + 1;
        }
        assert(digits@ =~= t@.drop_last());
        if !all_digit_chars(digits.as_slice()) {
            return Err(SandboxError::InvalidLimit(quoted_message("cpu_max ", t.as_slice(), ": non-integer percentage")));
        }
        match parse_u64_digits(digits.as_slice()) {
            None => {
                assert(dec_value(t@.drop_last()) > u64::MAX);
                Err(SandboxError::InvalidLimit(quoted_message("cpu_max ", t.as_slice(), ": percentage overflow")))
            },
            Some(percent) => {
                if percent == 0 {
                    return Err(SandboxError::InvalidLimit(owned("cpu_max \"0%\": a zero quota would wedge the action")));
                }
                if percent > MAX_CPU_PERCENT {
                    return Err(SandboxError::InvalidLimit(number_message("cpu_max ", percent, "% exceeds the 100% ceiling")));
                }
                Ok(CpuMax { percent })
            },
        }
    }

    /// The exact `cpu.max` file contents: `"<quota_us> <period_us>"`.
    pub fn cgroup_value(self) -> (r: String)
        ensures
            r@ == dec_digits(self.spec_percent() * 1000) + seq![' '] + dec_digits(100000),
    {
        proof {
            use_type_invariant(&self);
        }
        let quota = self.percent * CPU_PERIOD_US / 100;
        assert(quota == self.percent * 1000);
        let mut v: Vec<char> = Vec::new();
        push_dec(&mut v, quota);
        v.push(' ');
        push_dec(&mut v, CPU_PERIOD_US);
        string_of(v.as_slice())
    }
}

/// The unit multiplier a `memory_max` suffix selects.
pub open spec fn unit_of(c: char) -> nat {
    if c == 'k' || c == 'K' {
        1024
    } else if c == 'm' || c == 'M' {
        1048576
    } else if c == 'g' || c == 'G' {
        1073741824
    } else {
        1
    }
}

/// Whether `c` is one of the recognized unit suffixes `K`, `M`, `G` (any case).
pub open spec fn is_unit(c: char) -> bool {
    unit_of(c) != 1
}

/// The accepted byte count of a `memory_max` declaration, if any: after
/// trimming, digits with an optional `K`/`M`/`G` suffix (binary units), a
/// non-zero result of at most 1 TiB whose digits fit a `u64` and whose
/// product with the unit also fits.
pub open spec fn memory_bytes(s: Seq<char>) -> Option<nat> {
    let t = trim(s);
    if t.len() == 0 {
        None
    } else {
        let num = if is_unit(t.last()) {
            t.drop_last()
        } else {
            t
        };
        let mult = unit_of(t.last());
        if num.len() > 0 && all_digits(num) && dec_value(num) <= u64::MAX && dec_value(num)
            * mult <= u64::MAX {
            let b = dec_value(num) * mult;
            if 1 <= b <= MAX_MEMORY_BYTES {
                Some(b)
            } else {
                None
            }
        } else {
            None
        }
    }
}

/// The refusal text for a `memory_max` declaration that [`memory_bytes`]
/// refuses: after trimming, empty, an unknown unit, a non-integer or
/// overflowing amount, a byte count that overflows, zero, or more than
/// 1 TiB.
pub open spec fn memory_error(s: Seq<char>) -> Seq<char> {
    let t = trim(s);
    let num = if is_unit(t.last()) {
        t.drop_last()
    } else {
        t
    };
    let b = dec_value(num) * unit_of(t.last());
    if t.len() == 0 {
        "memory_max: empty"@
    } else if !is_unit(t.last()) && !is_digit(t.last()) {
        "memory_max "@ + debug_quoted(t) + ": unknown unit (use K/M/G or raw bytes)"@
    } else if !(num.len() > 0 && all_digits(num)) {
        "memory_max "@ + debug_quoted(t) + ": non-integer amount"@
    } else if dec_value(num) > u64::MAX {
        "memory_max "@ + debug_quoted(t) + ": amount overflow"@
    } else if b > u64::MAX {
        "memory_max "@ + debug_quoted(t) + ": byte count overflow"@
    } else if b == 0 {
        "memory_max: zero would make every allocation fail"@
    } else {
        "memory_max "@ + dec_digits(b) + " bytes exceeds the sanity ceiling (1099511627776 bytes); likely a unit mistake"@
    }
}

/// A validated memory ceiling, ready to write to cgroup v2 `memory.max`.
#[derive(Debug, Clone, Copy, PartialEq, Eq, Structural)]
pub struct MemoryMax {
    bytes: u64,
}

impl MemoryMax {
    /// The ceiling in bytes.
    pub closed spec fn spec_bytes(self) -> nat {
        self.bytes as nat
    }

    #[verifier::type_invariant]
    spec fn well_formed(self) -> bool {
        1 <= self.bytes <= MAX_MEMORY_BYTES
    }

    /// Parse a memory ceiling: a plain byte count (`"1048576"`) or a
    /// `K`/`M`/`G`-suffixed binary size (`"128M"`, `"1G"`, any case).
    ///
    /// Errors with `InvalidLimit` if empty, zero, non-numeric, an unknown
    /// unit, overflowing, or above 1 TiB.
    pub fn parse(s: &str) -> (r: Result<MemoryMax, SandboxError>)
        ensures
            r is Ok <==> memory_bytes(s@) is Some,
            r matches Ok(m) ==> Some(m.spec_bytes()) == memory_bytes(s@),
            r matches Err(e) ==> (e matches SandboxError::InvalidLimit(m) && m@ == memory_error(s@)),
    {
        let raw = chars_of(s);
        let t = trim_chars(raw.as_slice());
        let n = t.len();
        if n == 0 {
            return Err(SandboxError::InvalidLimit(owned("memory_max: empty")));
        }
        let last = t[n - 1];
        let (cut, mult): (usize, u64) = if last == 'k' || last == 'K' {
            (n - 1, 1024)
        } else if last == 'm' || last == 'M' {
            (n - 1, 1048576)
        } else if last == 'g' || last == 'G' {
            (n - 1, 1073741824)
        } else if '0' <= last && last <= '9' {
            (n, 1)
        } else {
            proof {
                assert(!is_digit(t@.last()));
                assert(!all_digits(t@)) by {
                    assert(!is_digit(t@[t@.len() - 1]));
                }
            }
            return Err(SandboxError::InvalidLimit(quoted_message("memory_max ", t.as_slice(), ": unknown unit (use K/M/G or raw bytes)")));
        };
        let mut num: Vec<char> = Vec::new();
        let mut i: usize = 0;
        while i < cut
            invariant
                i <= cut <= n,
                n == t@.len(),
                num@ =~= t@.take(i as int),
            decreases cut - i,
        {
            num.push(t[i]);
            i = i + 1;
        }
        let ghost num_spec = if is_unit(t@.last()) {
            t@.drop_last()
        } else {
            t@
        };
        assert(num@ =~= num_spec);
        assert(mult as nat == unit_of(t@.last()));
        if !all_digit_chars(num.as_slice()) {
            return Err(SandboxError::InvalidLimit(quoted_message("memory_max ", t.as_slice(), ": non-integer amount")));
        }
        let value = match parse_u64_digits(num.as_slice()) {
            None => {
                return Err(SandboxError::InvalidLimit(quoted_message("memory_max ", t.as_slice(), ": amount overflow")));
            },
            Some(v) => v,
        };
        let bytes = match value.checked_mul(mult) {
            None => {
                return Err(SandboxError::InvalidLimit(quoted_message("memory_max ", t.as_slice(), ": byte count overflow")));
            },
            Some(b) => b,
        };
        if bytes == 0 {
            return Err(SandboxError::InvalidLimit(owned("memory_max: zero would make every allocation fail")));
        }
        if bytes > MAX_MEMORY_BYTES {
            return Err(SandboxError::InvalidLimit(number_message("memory_max ", bytes, " bytes exceeds the sanity ceiling (1099511627776 bytes); likely a unit mistake")));
        }
        Ok(MemoryMax { bytes })
    }

    /// The exact `memory.max` file contents (a decimal byte count).
    pub fn cgroup_value(self) -> (r: String)
        ensures
            r@ == dec_digits(self.spec_bytes()),
    {
        let mut v: Vec<char> = Vec::new();
        push_dec(&mut v, self.bytes);
        string_of(v.as_slice())
    }

    /// The resolved limit in bytes.
    pub fn bytes(self) -> (r: u64)
        ensures
            r as nat == self.spec_bytes(),
    {
        self.bytes
    }
}

/// The cgroup path of a `/proc/self/cgroup` line, when it is the unified
/// (v2) hierarchy line `0::<absolute path>`.
pub open spec fn v2_path(line: Seq<char>) -> Option<Seq<char>> {
    if line.len() > 3 && line[0] == '0' && line[1] == ':' && line[2] == ':' && line[3] == '/' {
        Some(line.skip(3))
    } else {
        None
    }
}

/// The first line with a v2 path, if any.
pub open spec fn first_v2(ls: Seq<Seq<char>>) -> Option<Seq<char>>
    decreases ls.len(),
{
    if ls.len() == 0 {
        None
    } else {
        match v2_path(ls[0]) {
            Some(p) => Some(p),
            None => first_v2(ls.drop_first()),
        }
    }
}

/// Parse the v2 cgroup path of the calling process from the contents of
/// `/proc/self/cgroup`: the value of the first `0::/…` line. `None` if there
/// is no such line (e.g. a pure cgroup-v1 host) — callers then fail closed.
pub fn parse_self_cgroup_v2(proc_content: &str) -> (r: Option<String>)
    ensures
        r is Some <==> first_v2(lines(proc_content@)) is Some,
        r matches Some(p) ==> Some(p@) == first_v2(lines(proc_content@)),
{
    let text = chars_of(proc_content);
    let ls = lines_of(text.as_slice());
    let ghost all = lines(proc_content@);
    assert(all.skip(0) =~= all);
    let mut i: usize = 0;
    while i < ls.len()
        invariant
            i <= ls@.len(),
            all == lines(proc_content@),
            ls@.len() == all.len(),
            forall|j: int| 0 <= j < ls@.len() ==> #[trigger] ls@[j]@ == all[j],
            first_v2(all) == first_v2(all.skip(i as int)),
        decreases ls.len() - i,
    {
        let line = &ls[i];
        assert(all.skip(i as int)[0] == all[i as int]);
        assert(all.skip(i as int).drop_first() =~= all.skip(i + 1));
        if line.len() > 3 && line[0] == '0' && line[1] == ':' && line[2] == ':' && line[3] == '/' {
            let mut out: Vec<char> = Vec::new();
            let mut k: usize = 3;
            while k < line.len()
                invariant
                    3 <= k <= line@.len(),
                    out@ =~= line@.subrange(3, k as int),
                decreases line.len() - k,
            {
                out.push(line[k]);
                k = k + 1;
            }
            assert(out@ =~= line@.skip(3));
            assert(v2_path(all.skip(i as int)[0]) == Some(out@));
            assert(first_v2(all.skip(i as int)) == Some(out@));
            assert(first_v2(all) == Some(out@));
            let r = string_of(out.as_slice());
            assert(r@ == out@);
            return Some(r);
        }
        assert(v2_path(all.skip(i as int)[0]) is None);
        assert(first_v2(all.skip(i as int)) == first_v2(all.skip(i + 1)));
        i = i + 1;
    }
    assert(all.skip(ls@.len() as int) =~= Seq::<Seq<char>>::empty());
    None
}

/// A child cgroup directory name: a single safe path component.
pub open spec fn safe_component_spec(name: &str) -> bool {
    name@.len() > 0 && name.len() <= 128 && !name@.contains('/') && !name@.contains(
        '\0',
    ) && name@ != seq!['.'] && name@ != seq!['.', '.']
}

/// Whether `name` is a single safe path component for a child cgroup:
/// non-empty, at most 128 bytes, no `/` or NUL, not `.` or `..`.
pub fn safe_component(name: &str) -> (r: bool)
    ensures
        r == safe_component_spec(name),
{
    let c = chars_of(name);
    if c.len() == 0 || name.len() > 128 {
        return false;
    }
    if crate::text::has_char(c.as_slice(), '/') || crate::text::has_char(c.as_slice(), '\0') {
        return false;
    }
    if c.len() == 1 && c[0] == '.' {
        assert(c@ =~= seq!['.']);
        return false;
    }
    if c.len() == 2 && c[0] == '.' && c[1] == '.' {
        assert(c@ =~= seq!['.', '.']);
        return false;
    }
    proof {
        if c@ == seq!['.'] {
            assert(c@[0] == '.');
        }
        if c@ == seq!['.', '.'] {
            assert(c@[0] == '.' && c@[1] == '.');
        }
    }
    true
}

/// The controller files a per-action cgroup named `name` gets, with their
/// contents: `cpu.max` when a CPU ceiling is declared, then `memory.max`
/// when a memory ceiling is. A name that is not a safe path component is
/// refused.
pub fn cgroup_settings(name: &str, cpu: Option<CpuMax>, memory: Option<MemoryMax>) -> (r: Result<Vec<(String, String)>, SandboxError>)
    ensures
        r is Ok <==> safe_component_spec(name),
        r matches Err(e) ==> (e matches SandboxError::CgroupFailed(m) && m@ == "unsafe cgroup name "@
            + crate::text::debug_quoted(name@)),
        r matches Ok(v) ==> v@.len() == (if cpu is Some { 1int } else { 0int }) + (if memory is Some { 1int } else { 0int }),
        r matches Ok(v) ==> (cpu matches Some(c) ==> v@[0].0@ == "cpu.max"@ && v@[0].1@ == dec_digits(c.spec_percent() * 1000) + seq![' '] + dec_digits(100000)),
        r matches Ok(v) ==> (memory matches Some(m) ==> v@[v@.len() - 1].0@ == "memory.max"@ && v@[v@.len() - 1].1@ == dec_digits(m.spec_bytes())),
{
    if !safe_component(name) {
        let mut v: Vec<char> = Vec::new();
        crate::text::push_str(&mut v, "unsafe cgroup name ");
        let q = crate::text::debug_text(name);
        crate::text::push_str(&mut v, q.as_str());
        return Err(SandboxError::CgroupFailed(string_of(v.as_slice())));
    }
    let mut out: Vec<(String, String)> = Vec::new();
    match cpu {
        Some(c) => {
            out.push((crate::text::owned("cpu.max"), c.cgroup_value()));
        },
        None => {},
    }
    match memory {
        Some(m) => {
            out.push((crate::text::owned("memory.max"), m.cgroup_value()));
        },
        None => {},
    }
    Ok(out)
}

} // verus!
