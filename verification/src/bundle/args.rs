//! Argument schema validation.
//!
//! The model proposes argument values; the bundle author declares the
//! schema. This is where untrusted values meet a trusted schema, strictly
//! and fail-closed:
//!
//! - every required argument must be present;
//! - every supplied argument must be declared: an undeclared argument is
//!   rejected, never passed through (argument injection);
//! - each value must fully match its declared pattern, anchored as
//!   `\A(?:…)\z`, so a pattern written without `^`/`$` does not accept
//!   `safe-value; rm -rf /`;
//! - patterns are compiled by the linear-time `regex` engine, so no value
//!   can cause catastrophic backtracking.

use vstd::prelude::*;

use crate::bundle::error::ExecFormatError;
use crate::bundle::manifest::{ArgSpec, ArgType, ExecManifest};
use crate::text::{chars_eq, chars_of, debug_quoted, debug_text, push_str, string_of};

verus! {

/// What `regex::Regex::new` gives for `pattern`: `None` when it compiles,
/// else its error's text.
pub uninterp spec fn regex_error(pattern: Seq<char>) -> Option<Seq<char>>;

/// Whether `pattern` compiles as a regular expression.
pub open spec fn regex_valid(pattern: Seq<char>) -> bool {
    regex_error(pattern) is None
}

/// Whether the compiled `pattern` matches somewhere in `text`.
pub uninterp spec fn regex_is_match(pattern: Seq<char>, text: Seq<char>) -> bool;

/// Compiles `pattern` and tests it against `text`.
///
/// Calls `regex::Regex::new` and `Regex::is_match`: `Ok` with whether the
/// pattern matches when it compiles, else the text of the compile error
/// (what [`regex_error`] names).
#[verifier::external_body]
fn regex_match(pattern: &str, text: &str) -> (r: Result<bool, String>)
    ensures
        r is Ok <==> regex_valid(pattern@),
        r matches Ok(b) ==> b == regex_is_match(pattern@, text@),
        r matches Err(m) ==> regex_error(pattern@) == Some(m@),
{
    match regex::Regex::new(pattern) {
        Ok(re) => Ok(re.is_match(text)),
        Err(e) => Err(e.to_string()),
    }
}

/// The pattern `p` anchored at both ends of the value.
pub open spec fn anchored(p: Seq<char>) -> Seq<char> {
    "\\A(?:"@ + p + ")\\z"@
}

/// The value supplied for `name` (the first pair with that name).
pub open spec fn lookup(provided: Seq<(String, String)>, name: Seq<char>) -> Option<Seq<char>>
    decreases provided.len(),
{
    if provided.len() == 0 {
        None
    } else if provided[0].0@ == name {
        Some(provided[0].1@)
    } else {
        lookup(provided.drop_first(), name)
    }
}

/// `name` is declared by the schema `args`.
pub open spec fn declared(args: Seq<(String, ArgSpec)>, name: Seq<char>) -> bool {
    exists|k: int| 0 <= k < args.len() && (#[trigger] args[k]).0@ == name
}

/// `i` is the first supplied argument the schema does not declare.
pub open spec fn first_undeclared(args: Seq<(String, ArgSpec)>, provided: Seq<(String, String)>, i: int) -> bool {
    &&& 0 <= i < provided.len()
    &&& !declared(args, provided[i].0@)
    &&& forall|j: int| 0 <= j < i ==> declared(args, (#[trigger] provided[j]).0@)
}

/// The schema entry `(name, spec)` accepts what was supplied.
pub open spec fn arg_passes(name: Seq<char>, spec: ArgSpec, provided: Seq<(String, String)>) -> bool {
    match lookup(provided, name) {
        None => !spec.required,
        Some(v) => match spec.regex {
            None => true,
            Some(p) => regex_valid(anchored(p@)) && regex_is_match(anchored(p@), v),
        },
    }
}

/// `k` is the first schema entry that rejects what was supplied.
pub open spec fn first_failing(args: Seq<(String, ArgSpec)>, provided: Seq<(String, String)>, k: int) -> bool {
    &&& 0 <= k < args.len()
    &&& !arg_passes(args[k].0@, args[k].1, provided)
    &&& forall|j: int| 0 <= j < k ==> arg_passes((#[trigger] args[j]).0@, args[j].1, provided)
}

/// The error for schema entry `(name, spec)` rejecting what was supplied.
pub open spec fn arg_error_ok(name: Seq<char>, spec: ArgSpec, provided: Seq<(String, String)>, e: ExecFormatError) -> bool {
    match lookup(provided, name) {
        None => e matches ExecFormatError::ArgRejected(m) && m@ == "missing required argument "@ + debug_quoted(
            name,
        ),
        Some(v) => {
            let p = spec.regex->0@;
            if !regex_valid(anchored(p)) {
                e matches ExecFormatError::BadArgRegex { arg, source } && arg@ == name && Some(source@)
                    == regex_error(anchored(p))
            } else {
                e matches ExecFormatError::ArgRejected(m) && m@ == "argument "@ + debug_quoted(name)
                    + " value does not match its schema pattern"@
            }
        },
    }
}

/// Whether the supplied arguments satisfy the schema: all are declared and
/// every schema entry accepts.
pub open spec fn args_ok(args: Seq<(String, ArgSpec)>, provided: Seq<(String, String)>) -> bool {
    &&& forall|i: int| 0 <= i < provided.len() ==> declared(args, (#[trigger] provided[i]).0@)
    &&& forall|k: int| 0 <= k < args.len() ==> arg_passes((#[trigger] args[k]).0@, args[k].1, provided)
}

fn find_value<'a>(provided: &'a [(String, String)], name: &String) -> (r: Option<&'a String>)
    ensures
        r is None <==> lookup(provided@, name@) is None,
        r matches Some(v) ==> lookup(provided@, name@) == Some(v@),
{
    let want = chars_of(name.as_str());
    let mut i: usize = 0;
    assert(provided@.skip(0) =~= provided@);
    while i < provided.len()
        invariant
            i <= provided@.len(),
            want@ == name@,
            lookup(provided@, name@) == lookup(provided@.skip(i as int), name@),
        decreases provided.len() - i,
    {
        proof {
            assert(provided@.skip(i as int).drop_first() =~= provided@.skip(i + 1));
        }
        let have = chars_of(provided[i].0.as_str());
        if chars_eq(have.as_slice(), want.as_slice()) {
            return Some(&provided[i].1);
        }
        i = i + 1;
    }
    None
}

fn is_declared(args: &Vec<(String, ArgSpec)>, name: &String) -> (r: bool)
    ensures
        r == declared(args@, name@),
{
    let want = chars_of(name.as_str());
    let mut k: usize = 0;
    while k < args.len()
        invariant
            k <= args@.len(),
            want@ == name@,
            forall|j: int| 0 <= j < k ==> (#[trigger] args@[j]).0@ != name@,
        decreases args.len() - k,
    {
        let have = chars_of(args[k].0.as_str());
        if chars_eq(have.as_slice(), want.as_slice()) {
            assert(args@[k as int].0@ == name@);
            return true;
        }
        k = k + 1;
    }
    false
}

/// Validates supplied argument values against the manifest's schema.
///
/// `provided` pairs each argument name with its value, in ascending name
/// order with distinct names. The first undeclared argument is refused;
/// otherwise each schema entry, in order, must accept.
pub fn validate(manifest: &ExecManifest, provided: &[(String, String)]) -> (r: Result<(), ExecFormatError>)
    ensures
        r is Ok <==> args_ok(manifest.args@, provided@),
        r matches Err(e) ==> if exists|i: int| first_undeclared(manifest.args@, provided@, i) {
            exists|i: int|
                first_undeclared(manifest.args@, provided@, i) && (e matches ExecFormatError::ArgRejected(m)
                    && m@ == "undeclared argument "@ + debug_quoted((#[trigger] provided@[i]).0@))
        } else {
            exists|k: int|
                first_failing(manifest.args@, provided@, k) && arg_error_ok(
                    (#[trigger] manifest.args@[k]).0@,
                    manifest.args@[k].1,
                    provided@,
                    e,
                )
        },
{
    let mut i: usize = 0;
    while i < provided.len()
        invariant
            i <= provided@.len(),
            forall|j: int| 0 <= j < i ==> declared(manifest.args@, (#[trigger] provided@[j]).0@),
        decreases provided.len() - i,
    {
        if !is_declared(&manifest.args, &provided[i].0) {
            assert(first_undeclared(manifest.args@, provided@, i as int));
            let mut v: Vec<char> = Vec::new();
            push_str(&mut v, "undeclared argument ");
            let q = debug_text(provided[i].0.as_str());
            push_str(&mut v, q.as_str());
            return Err(ExecFormatError::ArgRejected(string_of(v.as_slice())));
        }
        i = i + 1;
    }
    assert(!exists|i: int| first_undeclared(manifest.args@, provided@, i));
    let mut k: usize = 0;
    while k < manifest.args.len()
        invariant
            k <= manifest.args@.len(),
            forall|j: int| 0 <= j < provided@.len() ==> declared(manifest.args@, (#[trigger] provided@[j]).0@),
            !exists|i: int| first_undeclared(manifest.args@, provided@, i),
            forall|j: int| 0 <= j < k ==> arg_passes((#[trigger] manifest.args@[j]).0@, manifest.args@[j].1, provided@),
        decreases manifest.args.len() - k,
    {
        let name = &manifest.args[k].0;
        let spec = &manifest.args[k].1;
        match find_value(provided, name) {
            None => {
                if spec.required {
                    assert(first_failing(manifest.args@, provided@, k as int));
                    let mut v: Vec<char> = Vec::new();
                    push_str(&mut v, "missing required argument ");
                    let q = debug_text(name.as_str());
                    push_str(&mut v, q.as_str());
                    return Err(ExecFormatError::ArgRejected(string_of(v.as_slice())));
                }
            },
            Some(value) => {
                match spec.ty {
                    ArgType::Text => {},
                }
                match &spec.regex {
                    None => {},
                    Some(pattern) => {
                        let mut a: Vec<char> = Vec::new();
                        push_str(&mut a, "\\A(?:");
                        push_str(&mut a, pattern.as_str());
                        push_str(&mut a, ")\\z");
                        let anchored_text = string_of(a.as_slice());
                        match regex_match(anchored_text.as_str(), value.as_str()) {
                            Err(source) => {
                                assert(first_failing(manifest.args@, provided@, k as int));
                                return Err(ExecFormatError::BadArgRegex { arg: name.clone(), source });
                            },
                            Ok(matched) => {
                                if !matched {
                                    assert(first_failing(manifest.args@, provided@, k as int));
                                    let mut v: Vec<char> = Vec::new();
                                    push_str(&mut v, "argument ");
                                    let q = debug_text(name.as_str());
                                    push_str(&mut v, q.as_str());
                                    push_str(&mut v, " value does not match its schema pattern");
                                    return Err(ExecFormatError::ArgRejected(string_of(v.as_slice())));
                                }
                            },
                        }
                    },
                }
            },
        }
        k = k + 1;
    }
    Ok(())
}

} // verus!
