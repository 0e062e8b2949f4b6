pub mod agent;
pub mod api;
pub mod cli;
pub mod config;
pub mod helpers;
pub mod jsonval;
pub mod llm;
pub mod result;
pub mod strutil;
pub mod task;
pub mod tools;

pub use agent::Agent;
pub use config::AgentConfig;
pub use llm::codex_adapter::{CodexAdapter, CodexAuth, CodexConfig};
pub use llm::gemini_adapter::{GeminiAdapter, GeminiConfig};
pub use llm::opus_adapter::{OpusAdapter, OpusConfig};
pub use llm::rotation::Rotator;
pub use llm::router::LLMRouter;
pub use llm::types::{CompletionRequest, LLMResponse, Message, ProviderAdapter, ProviderError, ToolCall};
pub use result::AgentResult;
pub use task::store::TaskStore;
pub use task::types::{Task, TaskStatus};
pub use tools::registry::ToolRegistry;
pub use tools::types::{ToolEntry, ToolHandler, ToolResult, ToolSchema};
