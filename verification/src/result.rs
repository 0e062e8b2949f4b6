//! The shape every execution returns, success or failure alike.

use vstd::prelude::*;

verus! {

/// The outcome of one `execute` call: failures carry an empty output and
/// the same shape as successes, never a protocol-level fault.
pub struct AgentResult {
    pub success: bool,
    pub output: String,
    pub task_id: Option<String>,
    pub trace: Option<serde_json::Value>,
}

} // verus!
