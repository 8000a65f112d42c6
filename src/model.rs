//! The todo entity and the request-scoped inputs of the handlers.
use vstd::prelude::*;

verus! {

/// A UTC instant, in microseconds since the Unix epoch.
#[derive(Clone, Copy, Debug, PartialEq, Eq, Structural)]
pub struct Timestamp {
    pub micros: i64,
}

/// Relies on chrono's `Utc::now` and `DateTime::timestamp_micros`: the time of
/// the system clock. Nothing is promised of it, not even that it grows.
#[verifier::external_body]
fn clock_micros() -> (r: i64) {
    chrono::Utc::now().timestamp_micros()
}

impl Timestamp {
    /// The current time.
    pub fn now() -> (r: Timestamp) {
        Timestamp { micros: clock_micros() }
    }
}

/// A stored todo item.
#[derive(Debug)]
pub struct Todo {
    /// The identifier, as lowercase hex text.
    pub id: String,
    pub title: String,
    pub content: String,
    pub completed: bool,
    pub created_at: Timestamp,
    pub updated_at: Timestamp,
}

impl Todo {
    /// What every stored todo satisfies.
    pub open spec fn wf(self) -> bool {
        &&& self.id@.len() > 0
        &&& self.created_at.micros <= self.updated_at.micros
    }

    /// A copy of this todo.
    pub fn duplicate(&self) -> (r: Todo)
        ensures
            r == *self,
    {
        Todo {
            id: self.id.clone(),
            title: self.title.clone(),
            content: self.content.clone(),
            completed: self.completed,
            created_at: self.created_at,
            updated_at: self.updated_at,
        }
    }
}

/// The body of a create request.
#[derive(Debug)]
pub struct NewTodo {
    pub title: String,
    pub content: Option<String>,
}

/// The body of an edit request.
#[derive(Debug)]
pub struct UpdateTodoSchema {
    pub title: Option<String>,
    pub content: Option<String>,
    pub completed: Option<bool>,
}

/// The paging parameters of a list request (`page` counts from one).
#[derive(Clone, Copy, Debug, PartialEq, Eq, Structural)]
pub struct QueryOptions {
    pub page: Option<usize>,
    pub limit: Option<usize>,
}

/// The fields that an edit writes over a stored todo.
#[derive(Debug)]
pub struct TodoUpdate {
    pub title: String,
    pub content: String,
    pub completed: bool,
    pub updated_at: Timestamp,
}

impl TodoUpdate {
    /// The todo after this update is written over `t`: the identifier and
    /// the creation time stay.
    pub open spec fn apply(self, t: Todo) -> Todo {
        Todo {
            id: t.id,
            title: self.title,
            content: self.content,
            completed: self.completed,
            created_at: t.created_at,
            updated_at: self.updated_at,
        }
    }
}

} // verus!
