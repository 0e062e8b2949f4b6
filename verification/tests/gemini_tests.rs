use base_agent::llm::gemini_adapter::{
    assemble_response, classify_http_error, final_error, gemini_endpoint, model_allowed,
    GeminiAdapter, GeminiConfig, GeminiPart,
};
use base_agent::llm::types::ProviderAdapter;
use base_agent::{
    CodexAdapter, CodexConfig, CompletionRequest, OpusAdapter, OpusConfig, ProviderError,
    ToolCall,
};

fn request(model: Option<&str>, temperature: Option<u32>) -> CompletionRequest {
    CompletionRequest {
        messages: Vec::new(),
        tools: None,
        temperature,
        model: model.map(|m| m.to_string()),
        provider: None,
        metadata: None,
    }
}

#[test]
fn model_allow_list_is_exact() {
    assert!(model_allowed("gemini-3-flash-preview"));
    assert!(model_allowed("gemini-3-pro-preview"));
    assert!(!model_allowed("gpt-4"));
    assert!(!model_allowed(""));
}

#[test]
fn endpoint_trims_trailing_slashes() {
    assert_eq!(
        gemini_endpoint("https://generativelanguage.googleapis.com///", "gemini-3-pro-preview"),
        "https://generativelanguage.googleapis.com/v1beta/models/gemini-3-pro-preview:generateContent"
    );
    assert_eq!(
        gemini_endpoint("http://x", "gemini-3-flash-preview"),
        "http://x/v1beta/models/gemini-3-flash-preview:generateContent"
    );
}

#[test]
fn classification_follows_the_taxonomy() {
    let auth = classify_http_error(401, "denied");
    assert_eq!(auth.code, "auth_error");
    assert_eq!(auth.message, "denied");
    assert!(auth.retryable);

    assert_eq!(classify_http_error(403, "no").code, "auth_error");
    assert_eq!(classify_http_error(429, "slow down").code, "rate_limit");
    assert_eq!(classify_http_error(404, "Quota exceeded for project").code, "rate_limit");
    assert_eq!(classify_http_error(500, "boom").code, "server_error");
    assert!(classify_http_error(503, "boom").retryable);

    let api = classify_http_error(404, "not found");
    assert_eq!(api.code, "api_error");
    assert!(!api.retryable);
}

#[test]
fn prepare_rejects_unlisted_models_without_any_attempt() {
    let adapter = GeminiAdapter::new(GeminiConfig {
        api_keys: vec!["k1".to_string()],
        base_url: String::new(),
        model: String::new(),
        temperature: 0,
    });
    let err = adapter.prepare(&request(Some("gpt-4"), None)).unwrap_err();
    assert_eq!(err.code, "invalid_model");
    assert_eq!(err.message, "model not allowed: gpt-4");
    assert!(!err.retryable);
}

#[test]
fn prepare_without_credentials_is_an_auth_error() {
    let adapter = GeminiAdapter::new(GeminiConfig {
        api_keys: Vec::new(),
        base_url: String::new(),
        model: String::new(),
        temperature: 0,
    });
    let err = adapter.prepare(&request(None, None)).unwrap_err();
    assert_eq!(err.code, "auth_error");
    assert_eq!(err.message, "no Gemini API keys");
}

#[test]
fn prepare_grants_one_attempt_per_credential() {
    let adapter = GeminiAdapter::new(GeminiConfig {
        api_keys: vec!["k1".to_string(), "k2".to_string()],
        base_url: String::new(),
        model: String::new(),
        temperature: 0,
    });
    let plan = adapter.prepare(&request(None, Some(70))).unwrap();
    assert_eq!(plan.model, "gemini-3-flash-preview");
    assert_eq!(plan.temperature, 70);
    assert_eq!(plan.attempts, 2);

    let defaulted = adapter.prepare(&request(None, None)).unwrap();
    assert_eq!(defaulted.temperature, 30);
}

#[test]
fn final_error_keeps_the_last_observed_failure() {
    let last = ProviderError {
        code: "server_error".to_string(),
        message: "boom".to_string(),
        retryable: true,
    };
    let kept = final_error(Some(last));
    assert_eq!(kept.code, "server_error");
    assert_eq!(kept.message, "boom");

    let fallback = final_error(None);
    assert_eq!(fallback.code, "api_error");
    assert_eq!(fallback.message, "request failed");
    assert!(fallback.retryable);
}

#[test]
fn assembled_response_concatenates_texts_and_keeps_call_order() {
    let parts = vec![
        GeminiPart { text: Some("Hello ".to_string()), function_call: None },
        GeminiPart {
            text: None,
            function_call: Some(ToolCall {
                name: "add".to_string(),
                args: serde_json::Value::Null,
            }),
        },
        GeminiPart {
            text: Some("world".to_string()),
            function_call: Some(ToolCall {
                name: "sub_tool".to_string(),
                args: serde_json::Value::Null,
            }),
        },
    ];
    let r = assemble_response(&parts, None);
    assert_eq!(r.content, "Hello world");
    assert_eq!(r.tool_calls.len(), 2);
    assert_eq!(r.tool_calls[0].name, "add");
    assert_eq!(r.tool_calls[1].name, "sub_tool");
    assert!(r.raw.is_none());
}

#[test]
fn codex_and_opus_adapters_are_not_implemented() {
    let mut codex = CodexAdapter::new(CodexConfig {
        api_keys: vec!["k".to_string()],
        auth_files: Vec::new(),
        model: "m".to_string(),
        reasoning_effort: None,
    });
    let err = match codex.complete(request(None, None)) {
        Err(e) => e,
        Ok(_) => panic!("expected the codex stub error"),
    };
    assert_eq!(err.code, "not_implemented");
    assert_eq!(err.message, "codex adapter not implemented");

    let mut opus = OpusAdapter::new(OpusConfig {
        api_keys: vec!["k".to_string()],
        base_url: String::new(),
        endpoint: String::new(),
        model: "m".to_string(),
        temperature: 0,
    });
    let err = match opus.complete(request(None, None)) {
        Err(e) => e,
        Ok(_) => panic!("expected the opus stub error"),
    };
    assert_eq!(err.code, "not_implemented");
    assert_eq!(err.message, "opus adapter not implemented");
}
