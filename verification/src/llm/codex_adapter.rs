//! The codex backend variant: registered like any other adapter, but its
//! completion call is not implemented.

use vstd::prelude::*;

use crate::llm::rotation::Rotator;
use crate::llm::types::{CompletionRequest, LLMResponse, ProviderAdapter, ProviderError};
use crate::strutil::clone_strings;

verus! {

pub struct CodexConfig {
    pub api_keys: Vec<String>,
    pub auth_files: Vec<String>,
    pub model: String,
    pub reasoning_effort: Option<String>,
}

pub struct CodexAuth {
    pub auth_file: String,
}

pub struct CodexAdapter {
    pub cfg: CodexConfig,
    pub rotator: Rotator,
}

impl CodexAdapter {
    pub fn new(cfg: CodexConfig) -> (r: CodexAdapter)
        ensures
            r.cfg == cfg,
            r.rotator.well_formed(),
            r.rotator.spec_keys() == cfg.api_keys@,
            r.rotator.spec_cursor() == 0,
    {
        CodexAdapter { rotator: Rotator::new(clone_strings(&cfg.api_keys)), cfg }
    }
}

impl ProviderAdapter for CodexAdapter {
    /// Always fails with a non-retryable `not_implemented` error.
    fn complete(&mut self, request: CompletionRequest) -> (r: Result<LLMResponse, ProviderError>)
        ensures
            r matches Err(e) && e.code@ == "not_implemented"@ && e.message@
                == "codex adapter not implemented"@ && e.retryable == false,
            *final(self) == *old(self),
    {
        Err(ProviderError::new("not_implemented", "codex adapter not implemented", false))
    }
}

} // verus!
