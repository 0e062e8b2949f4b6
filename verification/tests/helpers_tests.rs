use base_agent::cli::parse_on_off;
use base_agent::helpers::{build_llm_router, load_codex_keys, load_gemini_keys, load_opus_keys};
use base_agent::AgentConfig;

fn config(provider: &str, model: &str) -> AgentConfig {
    AgentConfig {
        provider: provider.to_string(),
        model: model.to_string(),
        reasoning_effort: None,
        max_iterations: 10,
        temperature: 30,
        enable_task_store: false,
        codex_auth_file: None,
    }
}

#[test]
fn keys_are_split_trimmed_and_filtered() {
    let keys = load_gemini_keys(
        Some(" a, b ,,c ".to_string()),
        vec![None, Some(" d ".to_string()), Some("   ".to_string())],
    );
    assert_eq!(keys, vec!["a", "b", "c", "d"]);
}

#[test]
fn absent_values_give_no_keys() {
    assert_eq!(load_codex_keys(None, Vec::new()), Vec::<String>::new());
    assert_eq!(load_opus_keys(None, vec![None, None]), Vec::<String>::new());
}

#[test]
fn selected_provider_without_keys_is_an_error() {
    let err = match build_llm_router(&config("gemini", "m"), Vec::new(), Vec::new(), Vec::new()) {
        Err(e) => e,
        Ok(_) => panic!("expected an error"),
    };
    assert_eq!(err, "gemini provider selected but no GEMINI_API_KEY found");

    let err = match build_llm_router(&config("codex", "m"), Vec::new(), Vec::new(), Vec::new()) {
        Err(e) => e,
        Ok(_) => panic!("expected an error"),
    };
    assert_eq!(err, "codex provider selected but no CODEX_API_KEY found");

    let err = match build_llm_router(&config("opus", "m"), Vec::new(), Vec::new(), Vec::new()) {
        Err(e) => e,
        Ok(_) => panic!("expected an error"),
    };
    assert_eq!(err, "opus provider selected but no OPUS_API_KEY found");
}

#[test]
fn plan_registers_providers_with_credentials() {
    let plan = build_llm_router(
        &config("gemini", "gemini-3-pro-preview"),
        vec!["g1".to_string()],
        vec!["c1".to_string()],
        Vec::new(),
    )
    .unwrap_or_else(|e| panic!("unexpected error: {}", e));

    assert_eq!(plan.default_provider, "gemini");
    let gemini = plan.gemini.expect("gemini planned");
    assert_eq!(gemini.api_keys, vec!["g1"]);
    assert_eq!(gemini.model, "gemini-3-pro-preview");
    assert_eq!(gemini.base_url, "https://generativelanguage.googleapis.com");
    let codex = plan.codex.expect("codex planned");
    assert_eq!(codex.api_keys, vec!["c1"]);
    assert_eq!(codex.model, "gemini-3-pro-preview");
    assert!(plan.opus.is_none());
}

#[test]
fn non_selected_gemini_gets_the_default_model() {
    let plan = build_llm_router(
        &config("codex", "my-model"),
        vec!["g1".to_string()],
        vec!["c1".to_string()],
        Vec::new(),
    )
    .unwrap_or_else(|e| panic!("unexpected error: {}", e));
    assert_eq!(plan.gemini.expect("gemini planned").model, "gemini-3-flash-preview");
}

#[test]
fn toggle_parsing_matches_the_word_lists() {
    assert_eq!(parse_on_off("on"), Some(true));
    assert_eq!(parse_on_off("TRUE"), Some(true));
    assert_eq!(parse_on_off("1"), Some(true));
    assert_eq!(parse_on_off("Yes"), Some(true));
    assert_eq!(parse_on_off("off"), Some(false));
    assert_eq!(parse_on_off("False"), Some(false));
    assert_eq!(parse_on_off("0"), Some(false));
    assert_eq!(parse_on_off("NO"), Some(false));
    assert_eq!(parse_on_off("maybe"), None);
    assert_eq!(parse_on_off(""), None);
}
