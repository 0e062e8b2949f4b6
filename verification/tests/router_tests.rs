use base_agent::{
    CodexAdapter, CodexConfig, CompletionRequest, LLMRouter,
};

fn request(provider: Option<&str>) -> CompletionRequest {
    CompletionRequest {
        messages: Vec::new(),
        tools: None,
        temperature: None,
        model: None,
        provider: provider.map(|p| p.to_string()),
        metadata: None,
    }
}

fn codex() -> CodexAdapter {
    CodexAdapter::new(CodexConfig {
        api_keys: vec!["k".to_string()],
        auth_files: Vec::new(),
        model: "m".to_string(),
        reasoning_effort: None,
    })
}

#[test]
fn missing_provider_is_a_non_retryable_error() {
    let mut router: LLMRouter<CodexAdapter> = LLMRouter::new("gemini");
    let err = match router.complete(request(None)) {
        Err(e) => e,
        Ok(_) => panic!("expected a dispatch failure"),
    };
    assert_eq!(err.code, "provider_missing");
    assert_eq!(err.message, "provider not registered: gemini");
    assert!(!err.retryable);
}

#[test]
fn request_provider_overrides_the_default() {
    let mut router: LLMRouter<CodexAdapter> = LLMRouter::new("gemini");
    router.register_provider("codex", codex());

    let err = match router.complete(request(Some("codex"))) {
        Err(e) => e,
        Ok(_) => panic!("expected the codex stub error"),
    };
    assert_eq!(err.code, "not_implemented");

    let err = match router.complete(request(None)) {
        Err(e) => e,
        Ok(_) => panic!("expected a dispatch failure"),
    };
    assert_eq!(err.code, "provider_missing");
    assert_eq!(err.message, "provider not registered: gemini");
}

#[test]
fn default_provider_is_used_when_none_is_requested() {
    let mut router: LLMRouter<CodexAdapter> = LLMRouter::new("codex");
    router.register_provider("codex", codex());
    let err = match router.complete(request(None)) {
        Err(e) => e,
        Ok(_) => panic!("expected the codex stub error"),
    };
    assert_eq!(err.code, "not_implemented");
}
