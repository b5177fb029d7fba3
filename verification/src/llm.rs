//! Backend-neutral model request and response types, and the transport
//! rules the model backends share.
//!
//! Requests carry a prompt the daemon has already hardened (defensive
//! system prompt, spotlighted untrusted input, canary tokens). Backends are
//! dumb pipes: they put these values on the wire and read the reply; they
//! never interpret, rewrite or "improve" the prompt.

use vstd::prelude::*;

use crate::primitives::secret::SecretString;
use crate::text::{chars_of, debug_quoted, debug_text, push_dec, push_str, starts_with, string_of, dec_digits};

verus! {

/// Who authored a message.
#[derive(Debug, Clone, Copy, PartialEq, Eq, Structural)]
pub enum Role {
    /// The operator or daemon side of the conversation.
    User,
    /// The model's prior turns.
    Assistant,
}

/// One conversation turn.
#[derive(Debug, Clone, PartialEq, Eq)]
pub struct Message {
    /// Author of the message.
    pub role: Role,
    /// Message text, opaque here.
    pub content: String,
}

impl Message {
    /// A user-authored message.
    pub fn user(content: String) -> (r: Message)
        ensures
            r.role == Role::User,
            r.content == content,
    {
        Message { role: Role::User, content }
    }

    /// An assistant-authored message.
    pub fn assistant(content: String) -> (r: Message)
        ensures
            r.role == Role::Assistant,
            r.content == content,
    {
        Message { role: Role::Assistant, content }
    }
}

/// Token accounting reported by the backend (best effort).
#[derive(Debug, Clone, Copy, Default, PartialEq, Eq)]
pub struct Usage {
    /// Tokens in the prompt.
    pub input_tokens: u32,
    /// Tokens generated.
    pub output_tokens: u32,
}

/// A completion response. The text is still untrusted: canary and structure
/// checks come before acting on it.
#[derive(Debug, Clone, PartialEq, Eq)]
pub struct CompletionResponse {
    /// The generated text.
    pub text: String,
    /// The model that answered, as the backend reports it.
    pub model: String,
    /// Token usage.
    pub usage: Usage,
}

/// Optional capabilities a backend may advertise.
#[derive(Debug, Clone, Copy, PartialEq, Eq, Hash, Structural)]
#[non_exhaustive]
pub enum BackendCapability {
    /// Honors a dedicated system prompt field.
    SystemPrompt,
    /// Supports provider-side prompt caching.
    PromptCaching,
    /// Supports constrained or structured output.
    StructuredOutput,
}

/// Errors produced by a model backend. They never embed the API key, the
/// full prompt, or the full response.
#[derive(Debug, Clone, PartialEq, Eq)]
#[non_exhaustive]
pub enum LlmError {
    /// An unusable configuration value, detected before any network I/O.
    InvalidConfig(String),
    /// The HTTP transport failed (DNS, connect, TLS, timeout).
    Transport(String),
    /// The endpoint returned a non-success status.
    Status {
        /// HTTP status code.
        status: u16,
        /// A short, truncated snippet of the body.
        snippet: String,
    },
    /// The response body exceeded the size cap (treated as hostile).
    ResponseTooLarge {
        /// The configured maximum.
        max_bytes: usize,
    },
    /// The response could not be decoded into the expected shape.
    Decode(String),
}

/// Configuration for the Anthropic backend.
pub struct AnthropicConfig {
    /// API base URL; must be `https://`. Defaults to the public endpoint.
    pub base_url: Option<String>,
    /// API key, never logged.
    pub api_key: SecretString,
    /// Overall per-request timeout in milliseconds.
    pub timeout_ms: Option<u64>,
    /// Maximum accepted response size in bytes.
    pub max_response_bytes: Option<usize>,
}

/// Configuration for the local Ollama backend.
pub struct OllamaConfig {
    /// Base URL; defaults to loopback `http://127.0.0.1:11434`.
    pub base_url: Option<String>,
    /// Overall per-request timeout in milliseconds.
    pub timeout_ms: Option<u64>,
    /// Maximum accepted response size in bytes.
    pub max_response_bytes: Option<usize>,
}

/// The wire name of a role.
pub fn role_str(role: Role) -> (r: &'static str)
    ensures
        r@ == (match role {
            Role::User => "user"@,
            Role::Assistant => "assistant"@,
        }),
{
    match role {
        Role::User => "user",
        Role::Assistant => "assistant",
    }
}

/// `s` without its trailing `/` characters.
pub open spec fn trim_slashes(s: Seq<char>) -> Seq<char>
    decreases s.len(),
{
    if s.len() > 0 && s.last() == '/' {
        trim_slashes(s.drop_last())
    } else {
        s
    }
}

fn trim_trailing_slashes(s: &str) -> (r: Vec<char>)
    ensures
        r@ == trim_slashes(s@),
{
    let mut v = chars_of(s);
    while v.len() > 0 && v[v.len() - 1] == '/'
        invariant
            trim_slashes(v@) == trim_slashes(s@),
        decreases v@.len(),
    {
        let ghost before = v@;
        v.pop();
        assert(v@ =~= before.drop_last());
    }
    v
}

/// The Anthropic base URL a configuration resolves to: the given URL (or
/// the public endpoint) without trailing slashes.
pub open spec fn anthropic_url(base: Option<String>) -> Seq<char> {
    trim_slashes(
        match base {
            Some(b) => b@,
            None => "https://api.anthropic.com"@,
        },
    )
}

/// The Ollama base URL a configuration resolves to.
pub open spec fn ollama_url(base: Option<String>) -> Seq<char> {
    trim_slashes(
        match base {
            Some(b) => b@,
            None => "http://127.0.0.1:11434"@,
        },
    )
}

/// The Anthropic endpoint, refused unless `https://`: the API key is never
/// sent to a plaintext endpoint.
pub fn anthropic_base_url(base: &Option<String>) -> (r: Result<String, LlmError>)
    ensures
        r is Ok <==> starts_with(anthropic_url(*base), "https://"@),
        r matches Ok(u) ==> u@ == anthropic_url(*base),
        r matches Err(e) ==> (e matches LlmError::InvalidConfig(m) && m@ == "Anthropic base URL must be https://, got "@
            + debug_quoted(anthropic_url(*base))),
{
    let t = match base {
        Some(b) => trim_trailing_slashes(b.as_str()),
        None => trim_trailing_slashes("https://api.anthropic.com"),
    };
    let https = chars_of("https://");
    if !crate::text::starts_with_chars(t.as_slice(), https.as_slice()) {
        let url = string_of(t.as_slice());
        let mut v: Vec<char> = Vec::new();
        push_str(&mut v, "Anthropic base URL must be https://, got ");
        let q = debug_text(url.as_str());
        push_str(&mut v, q.as_str());
        return Err(LlmError::InvalidConfig(string_of(v.as_slice())));
    }
    Ok(string_of(t.as_slice()))
}

/// The Ollama endpoint, refused unless `http://` or `https://`.
pub fn ollama_base_url(base: &Option<String>) -> (r: Result<String, LlmError>)
    ensures
        r is Ok <==> starts_with(ollama_url(*base), "http://"@) || starts_with(ollama_url(*base), "https://"@),
        r matches Ok(u) ==> u@ == ollama_url(*base),
        r matches Err(e) ==> (e matches LlmError::InvalidConfig(m) && m@ == "Ollama base URL must be http(s)://, got "@
            + debug_quoted(ollama_url(*base))),
{
    let t = match base {
        Some(b) => trim_trailing_slashes(b.as_str()),
        None => trim_trailing_slashes("http://127.0.0.1:11434"),
    };
    let http = chars_of("http://");
    let https = chars_of("https://");
    if !(crate::text::starts_with_chars(t.as_slice(), http.as_slice()) || crate::text::starts_with_chars(
        t.as_slice(),
        https.as_slice(),
    )) {
        let url = string_of(t.as_slice());
        let mut v: Vec<char> = Vec::new();
        push_str(&mut v, "Ollama base URL must be http(s)://, got ");
        let q = debug_text(url.as_str());
        push_str(&mut v, q.as_str());
        return Err(LlmError::InvalidConfig(string_of(v.as_slice())));
    }
    Ok(string_of(t.as_slice()))
}

/// The text of a response's content blocks: the texts of the blocks whose
/// type is `text`, concatenated in order.
pub open spec fn text_of_blocks(blocks: Seq<(String, String)>) -> Seq<char>
    decreases blocks.len(),
{
    if blocks.len() == 0 {
        Seq::empty()
    } else {
        text_of_blocks(blocks.drop_last()) + if blocks.last().0@ == "text"@ {
            blocks.last().1@
        } else {
            Seq::empty()
        }
    }
}

/// Concatenates the text blocks of a response (`(type, text)` pairs).
pub fn join_text_blocks(blocks: &[(String, String)]) -> (r: String)
    ensures
        r@ == text_of_blocks(blocks@),
{
    let mut v: Vec<char> = Vec::new();
    let text = chars_of("text");
    let mut i: usize = 0;
    while i < blocks.len()
        invariant
            i <= blocks@.len(),
            text@ == "text"@,
            v@ == text_of_blocks(blocks@.take(i as int)),
        decreases blocks.len() - i,
    {
        let ty = chars_of(blocks[i].0.as_str());
        proof {
            assert(blocks@.take(i + 1).drop_last() =~= blocks@.take(i as int));
        }
        if crate::text::chars_eq(ty.as_slice(), text.as_slice()) {
            push_str(&mut v, blocks[i].1.as_str());
        }
        i = i + 1;
    }
    assert(blocks@.take(blocks@.len() as int) =~= blocks@);
    string_of(v.as_slice())
}

/// The longest body prefix a diagnostic snippet shows.
pub const SNIPPET_MAX: usize = 256;

/// The lossy UTF-8 reading of `bytes`: every invalid sequence becomes
/// U+FFFD.
pub uninterp spec fn lossy_utf8(bytes: Seq<u8>) -> Seq<char>;

/// `bytes` read as lossy UTF-8.
///
/// Calls `String::from_utf8_lossy`; the result is a function of `bytes`.
#[verifier::external_body]
fn from_utf8_lossy(bytes: &[u8]) -> (r: String)
    ensures
        r@ == lossy_utf8(bytes@),
{
    String::from_utf8_lossy(bytes).into_owned()
}

/// A short, lossy, printable snippet of a body for diagnostics: its first
/// [`SNIPPET_MAX`] bytes, with `…` appended when it was longer.
pub fn snippet(bytes: &[u8]) -> (r: String)
    ensures
        r@ == lossy_utf8(bytes@.take(if bytes@.len() < 256 { bytes@.len() as int } else { 256 })) + if bytes@.len() > 256 {
            seq!['…']
        } else {
            Seq::<char>::empty()
        },
{
    let take = if bytes.len() < SNIPPET_MAX {
        bytes.len()
    } else {
        SNIPPET_MAX
    };
    let mut head: Vec<u8> = Vec::new();
    let mut i: usize = 0;
    while i < take
        invariant
            i <= take,
            take <= bytes@.len(),
            head@ == bytes@.take(i as int),
        decreases take - i,
    {
        head.push(bytes[i]);
        i = i + 1;
        assert(head@ =~= bytes@.take(i as int));
    }
    let shown = from_utf8_lossy(head.as_slice());
    if bytes.len() > SNIPPET_MAX {
        let mut v = chars_of(shown.as_str());
        v.push('…');
        string_of(v.as_slice())
    } else {
        shown
    }
}

/// Whether an announced body length exceeds the cap (refused before any
/// download).
pub fn announced_too_large(content_length: Option<u64>, max_bytes: usize) -> (r: bool)
    ensures
        r == (content_length matches Some(n) && n > max_bytes),
{
    match content_length {
        Some(n) => n > max_bytes as u64,
        None => false,
    }
}

/// Appends the next chunk of a response body, refusing a body that would
/// exceed `max_bytes`.
pub fn accept_chunk(body: &mut Vec<u8>, chunk: &[u8], max_bytes: usize) -> (r: Result<(), LlmError>)
    ensures
        r is Ok <==> old(body)@.len() + chunk@.len() <= max_bytes,
        r is Ok ==> final(body)@ == old(body)@ + chunk@,
        r is Err ==> final(body)@ == old(body)@ && r == Err::<(), LlmError>(LlmError::ResponseTooLarge { max_bytes }),
{
    if chunk.len() > max_bytes || body.len() > max_bytes - chunk.len() {
        return Err(LlmError::ResponseTooLarge { max_bytes });
    }
    let ghost before = body@;
    let mut i: usize = 0;
    while i < chunk.len()
        invariant
            i <= chunk@.len(),
            body@ == before + chunk@.take(i as int),
        decreases chunk.len() - i,
    {
        body.push(chunk[i]);
        i = i + 1;
        assert(body@ =~= before + chunk@.take(i as int));
    }
    assert(chunk@.take(chunk@.len() as int) =~= chunk@);
    Ok(())
}

/// The text of a backend error.
pub open spec fn llm_error_text(e: LlmError) -> Seq<char> {
    match e {
        LlmError::InvalidConfig(m) => "invalid backend configuration: "@ + m@,
        LlmError::Transport(m) => "transport error: "@ + m@,
        LlmError::Status { status, snippet } => "backend returned HTTP "@ + dec_digits(status as nat) + ": "@
            + snippet@,
        LlmError::ResponseTooLarge { max_bytes } => "response exceeded the "@ + dec_digits(max_bytes as nat)
            + "-byte cap"@,
        LlmError::Decode(m) => "could not decode backend response: "@ + m@,
    }
}

impl LlmError {
    /// The error's text.
    pub fn to_string(&self) -> (r: String)
        ensures
            r@ == llm_error_text(*self),
    {
        let mut v: Vec<char> = Vec::new();
        match self {
            LlmError::InvalidConfig(m) => {
                push_str(&mut v, "invalid backend configuration: ");
                push_str(&mut v, m.as_str());
            },
            LlmError::Transport(m) => {
                push_str(&mut v, "transport error: ");
                push_str(&mut v, m.as_str());
            },
            LlmError::Status { status, snippet } => {
                push_str(&mut v, "backend returned HTTP ");
                push_dec(&mut v, *status as u64);
                push_str(&mut v, ": ");
                push_str(&mut v, snippet.as_str());
            },
            LlmError::ResponseTooLarge { max_bytes } => {
                push_str(&mut v, "response exceeded the ");
                push_dec(&mut v, *max_bytes as u64);
                push_str(&mut v, "-byte cap");
            },
            LlmError::Decode(m) => {
                push_str(&mut v, "could not decode backend response: ");
                push_str(&mut v, m.as_str());
            },
        }
        string_of(v.as_slice())
    }
}

/// Whether the Anthropic backend advertises `capability` (all of them).
pub fn anthropic_supports(capability: BackendCapability) -> (r: bool)
    ensures
        r,
{
    match capability {
        BackendCapability::SystemPrompt => true,
        BackendCapability::PromptCaching => true,
        BackendCapability::StructuredOutput => true,
    }
}

/// Whether the Ollama backend advertises `capability` (only a system
/// prompt).
pub fn ollama_supports(capability: BackendCapability) -> (r: bool)
    ensures
        r == (capability == BackendCapability::SystemPrompt),
{
    match capability {
        BackendCapability::SystemPrompt => true,
        _ => false,
    }
}

} // verus!
