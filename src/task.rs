//! The task resource as the service hands it out, and its error payload.

use vstd::prelude::*;

verus! {

/// A task as received from the service. The client never changes one;
/// updates travel as a `PartialUpdate`.
#[derive(Clone, Debug, PartialEq, Eq)]
pub struct Task {
    pub id: u32,
    pub title: String,
    pub description: String,
    pub done: bool,
    pub created_at: String,
}

/// The `{message}` body that the service sends with a not-found status.
#[derive(Clone, Debug, PartialEq, Eq)]
pub struct ErrorPayload {
    pub message: String,
}

impl Task {
    /// A task is usable only when its title is not empty: the service
    /// answers some failures with an empty-fielded task.
    pub open spec fn usable(&self) -> bool {
        self.title@.len() > 0
    }

    pub fn is_usable(&self) -> (r: bool)
        ensures
            r == self.usable(),
    {
        self.title.as_str().unicode_len() > 0
    }
}

} // verus!
