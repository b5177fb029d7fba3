use archangel::llm::{
    accept_chunk, announced_too_large, anthropic_base_url, anthropic_supports, join_text_blocks, ollama_base_url,
    ollama_supports, role_str, snippet, BackendCapability, LlmError, Message, Role,
};

fn blocks(items: &[(&str, &str)]) -> Vec<(String, String)> {
    items.iter().map(|(k, v)| ((*k).to_owned(), (*v).to_owned())).collect()
}

#[test]
fn roles_serialize_as_lowercase_words() {
    assert_eq!(role_str(Role::User), "user");
    assert_eq!(role_str(Role::Assistant), "assistant");
    let m = Message::user("hi".into());
    assert_eq!(m.role, Role::User);
    assert_eq!(m.content, "hi");
    assert_eq!(Message::assistant("yo".into()).role, Role::Assistant);
}

#[test]
fn anthropic_url_defaults_and_requires_https() {
    assert_eq!(anthropic_base_url(&None).expect("default"), "https://api.anthropic.com");
    assert_eq!(anthropic_base_url(&Some("https://proxy.local//".into())).expect("ok"), "https://proxy.local");
    assert_eq!(
        anthropic_base_url(&Some("http://proxy.local".into())),
        Err(LlmError::InvalidConfig("Anthropic base URL must be https://, got \"http://proxy.local\"".into()))
    );
}

#[test]
fn ollama_url_defaults_to_loopback() {
    assert_eq!(ollama_base_url(&None).expect("default"), "http://127.0.0.1:11434");
    assert_eq!(ollama_base_url(&Some("https://gpu.box/".into())).expect("ok"), "https://gpu.box");
    assert!(matches!(ollama_base_url(&Some("ftp://x".into())), Err(LlmError::InvalidConfig(_))));
}

#[test]
fn only_text_blocks_are_joined() {
    let b = blocks(&[("text", "Hello, "), ("tool_use", "ignored"), ("text", "world")]);
    assert_eq!(join_text_blocks(&b), "Hello, world");
    assert_eq!(join_text_blocks(&[]), "");
}

#[test]
fn snippet_is_truncated_with_ellipsis() {
    assert_eq!(snippet(b"short body"), "short body");
    let long = vec![b'a'; 300];
    let s = snippet(&long);
    assert_eq!(s.chars().count(), 257);
    assert!(s.ends_with('…'));
    assert_eq!(snippet(&[0xff, b'x']), "\u{fffd}x");
}

#[test]
fn size_cap_is_enforced_on_announce_and_on_chunks() {
    assert!(announced_too_large(Some(11), 10));
    assert!(!announced_too_large(Some(10), 10));
    assert!(!announced_too_large(None, 10));
    let mut body = Vec::new();
    assert!(accept_chunk(&mut body, b"12345", 8).is_ok());
    assert_eq!(accept_chunk(&mut body, b"6789", 8), Err(LlmError::ResponseTooLarge { max_bytes: 8 }));
    assert_eq!(body, b"12345");
    assert!(accept_chunk(&mut body, b"678", 8).is_ok());
    assert_eq!(body, b"12345678");
}

#[test]
fn capabilities_per_backend() {
    assert!(anthropic_supports(BackendCapability::PromptCaching));
    assert!(ollama_supports(BackendCapability::SystemPrompt));
    assert!(!ollama_supports(BackendCapability::StructuredOutput));
}

#[test]
fn llm_error_texts() {
    assert_eq!(
        LlmError::Status { status: 503, snippet: "busy".into() }.to_string(),
        "backend returned HTTP 503: busy"
    );
    assert_eq!(LlmError::Transport("dns".into()).to_string(), "transport error: dns");
}
