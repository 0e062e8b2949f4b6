//! The record of one instruction execution's lifecycle.

use vstd::prelude::*;

verus! {

#[derive(Clone, Copy, PartialEq, Eq, Structural, Debug)]
pub enum TaskStatus {
    Pending,
    Running,
    Completed,
    Failed,
}

/// A terminal status: the execution is over, for better or worse.
pub open spec fn is_terminal(status: TaskStatus) -> bool {
    status == TaskStatus::Completed || status == TaskStatus::Failed
}

/// One recorded execution. Timestamps are milliseconds since the Unix
/// epoch.
pub struct Task {
    pub id: String,
    pub instruction: String,
    pub status: TaskStatus,
    pub output: Option<String>,
    pub error: Option<String>,
    pub created_at: i64,
    pub completed_at: Option<i64>,
}

impl Clone for Task {
    fn clone(&self) -> (r: Self)
        ensures
            r == *self,
    {
        Task {
            id: self.id.clone(),
            instruction: self.instruction.clone(),
            status: self.status,
            output: match &self.output {
                Some(o) => Some(o.clone()),
                None => None,
            },
            error: match &self.error {
                Some(e) => Some(e.clone()),
                None => None,
            },
            created_at: self.created_at,
            completed_at: self.completed_at,
        }
    }
}

} // verus!
