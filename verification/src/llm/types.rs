//! The normalized completion types shared by the router and the provider
//! adapters.

use vstd::prelude::*;

use crate::jsonval::clone_value;
use crate::tools::types::ToolSchema;

verus! {

/// One conversation turn; the role is `"system"`, `"user"` or
/// `"assistant"`.
pub struct Message {
    pub role: String,
    pub content: String,
}

impl Clone for Message {
    fn clone(&self) -> (r: Self)
        ensures
            r == *self,
    {
        Message { role: self.role.clone(), content: self.content.clone() }
    }
}

/// A tool invocation emitted by a model response.
pub struct ToolCall {
    pub name: String,
    pub args: serde_json::Value,
}

impl Clone for ToolCall {
    fn clone(&self) -> (r: Self)
        ensures
            r == *self,
    {
        ToolCall { name: self.name.clone(), args: clone_value(&self.args) }
    }
}

/// A normalized model response: the returned text, the tool calls in the
/// order the model emitted them (empty means the conversation is done),
/// and the raw payload for diagnostics.
pub struct LLMResponse {
    pub content: String,
    pub tool_calls: Vec<ToolCall>,
    pub raw: Option<serde_json::Value>,
}

/// One completion request: the conversation so far, the advertised tool
/// schemas, and per-request overrides. The temperature is carried in
/// hundredths of a unit (30 stands for 0.30).
pub struct CompletionRequest {
    pub messages: Vec<Message>,
    pub tools: Option<Vec<ToolSchema>>,
    pub temperature: Option<u32>,
    pub model: Option<String>,
    pub provider: Option<String>,
    pub metadata: Option<serde_json::Value>,
}

/// A provider failure: a taxonomy code, a message, and whether the
/// adapter's own retry loop may try again.
#[derive(Debug)]
pub struct ProviderError {
    pub code: String,
    pub message: String,
    pub retryable: bool,
}

impl Clone for ProviderError {
    fn clone(&self) -> (r: Self)
        ensures
            r == *self,
    {
        ProviderError {
            code: self.code.clone(),
            message: self.message.clone(),
            retryable: self.retryable,
        }
    }
}

impl ProviderError {
    pub fn new(code: &str, message: &str, retryable: bool) -> (r: ProviderError)
        ensures
            r.code@ == code@,
            r.message@ == message@,
            r.retryable == retryable,
    {
        ProviderError {
            code: code.to_owned(),
            message: message.to_owned(),
            retryable,
        }
    }
}

/// The completion capability: one implementing variant per backend. The
/// router holds implementers by name and never branches on backend
/// identity.
pub trait ProviderAdapter {
    fn complete(&mut self, request: CompletionRequest) -> Result<LLMResponse, ProviderError>;
}

} // verus!
