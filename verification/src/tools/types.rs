//! The calling contract a tool presents to the model, and the shape of a
//! tool execution's outcome.

use vstd::prelude::*;

use crate::jsonval::clone_value;

verus! {

/// Describes a tool's calling contract to the model; `name` is the join
/// key with the registry.
pub struct ToolSchema {
    pub name: String,
    pub description: String,
    pub parameters: Option<serde_json::Value>,
}

impl Clone for ToolSchema {
    fn clone(&self) -> (r: Self)
        ensures
            r == *self,
    {
        ToolSchema {
            name: self.name.clone(),
            description: self.description.clone(),
            parameters: match &self.parameters {
                Some(v) => Some(clone_value(v)),
                None => None,
            },
        }
    }
}

/// The outcome of one tool execution: either an output value or an error
/// text, never both.
pub struct ToolResult {
    pub success: bool,
    pub output: Option<serde_json::Value>,
    pub error: Option<String>,
}

/// An opaque capability mapping structured arguments to a structured
/// result or a failure reason. Implemented by the library's users; the
/// registry never constrains a handler's behaviour.
pub trait ToolHandler {
    fn call(&self, args: serde_json::Value) -> Result<serde_json::Value, String>;
}

/// One registered tool: its name, its handler and its schema. The handler
/// is fixed at registration and never reassigned.
pub struct ToolEntry<H: ToolHandler> {
    pub name: String,
    pub handler: H,
    pub schema: ToolSchema,
}

} // verus!
