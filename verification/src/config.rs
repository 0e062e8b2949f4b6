//! The agent's configuration surface; how the values are loaded is the
//! caller's concern.

use vstd::prelude::*;

verus! {

/// The temperature is carried in hundredths of a unit (30 stands for
/// 0.30).
pub struct AgentConfig {
    pub provider: String,
    pub model: String,
    pub reasoning_effort: Option<String>,
    pub max_iterations: usize,
    pub temperature: u32,
    pub enable_task_store: bool,
    pub codex_auth_file: Option<String>,
}

impl Clone for AgentConfig {
    fn clone(&self) -> (r: Self)
        ensures
            r == *self,
    {
        AgentConfig {
            provider: self.provider.clone(),
            model: self.model.clone(),
            reasoning_effort: match &self.reasoning_effort {
                Some(s) => Some(s.clone()),
                None => None,
            },
            max_iterations: self.max_iterations,
            temperature: self.temperature,
            enable_task_store: self.enable_task_store,
            codex_auth_file: match &self.codex_auth_file {
                Some(s) => Some(s.clone()),
                None => None,
            },
        }
    }
}

impl Default for AgentConfig {
    fn default() -> (r: Self)
        ensures
            r.provider@ == "gemini"@,
            r.model@ == "gemini-3-flash-preview"@,
            r.reasoning_effort is None,
            r.max_iterations == 10,
            r.temperature == 30,
            r.enable_task_store == true,
            r.codex_auth_file is None,
    {
        AgentConfig {
            provider: String::from_str("gemini"),
            model: String::from_str("gemini-3-flash-preview"),
            reasoning_effort: None,
            max_iterations: 10,
            temperature: 30,
            enable_task_store: true,
            codex_auth_file: None,
        }
    }
}

} // verus!
