//! The value shapes of the network surface that the transport layer
//! hands to the library.

use vstd::prelude::*;

verus! {

/// The query parameters of a task-listing request.
pub struct TasksQuery {
    pub limit: Option<usize>,
}

} // verus!
