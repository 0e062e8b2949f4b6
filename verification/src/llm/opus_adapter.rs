//! The opus backend variant: registered like any other adapter, but its
//! completion call is not implemented.

use vstd::prelude::*;

use crate::llm::rotation::Rotator;
use crate::llm::types::{CompletionRequest, LLMResponse, ProviderAdapter, ProviderError};
use crate::strutil::clone_strings;

verus! {

/// The temperature is carried in hundredths of a unit (30 stands for
/// 0.30).
pub struct OpusConfig {
    pub api_keys: Vec<String>,
    pub base_url: String,
    pub endpoint: String,
    pub model: String,
    pub temperature: u32,
}

pub struct OpusAdapter {
    pub cfg: OpusConfig,
    pub rotator: Rotator,
}

impl OpusAdapter {
    pub fn new(cfg: OpusConfig) -> (r: OpusAdapter)
        ensures
            r.cfg == cfg,
            r.rotator.well_formed(),
            r.rotator.spec_keys() == cfg.api_keys@,
            r.rotator.spec_cursor() == 0,
    {
        OpusAdapter { rotator: Rotator::new(clone_strings(&cfg.api_keys)), cfg }
    }
}

impl ProviderAdapter for OpusAdapter {
    /// Always fails with a non-retryable `not_implemented` error.
    fn complete(&mut self, request: CompletionRequest) -> (r: Result<LLMResponse, ProviderError>)
        ensures
            r matches Err(e) && e.code@ == "not_implemented"@ && e.message@
                == "opus adapter not implemented"@ && e.retryable == false,
            *final(self) == *old(self),
    {
        Err(ProviderError::new("not_implemented", "opus adapter not implemented", false))
    }
}

} // verus!
