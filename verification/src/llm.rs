pub mod codex_adapter;
pub mod gemini_adapter;
pub mod opus_adapter;
pub mod rotation;
pub mod router;
pub mod types;
