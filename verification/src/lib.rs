//! An in-memory store of task records: create, list and delete operations
//! over a mapping from server-generated identifiers to records.

use vstd::prelude::*;

pub mod store;
pub mod laws;

pub use store::TodoStore;

verus! {

/// A single task record: a unique identifier, a free-form description,
/// and a completion flag that starts out false.
pub struct Todo {
    pub id: String,
    pub task: String,
    pub done: bool,
}

/// The mathematical value of a task record.
pub ghost struct TodoView {
    pub id: Seq<char>,
    pub task: Seq<char>,
    pub done: bool,
}

impl View for Todo {
    type V = TodoView;

    open spec fn view(&self) -> TodoView {
        TodoView { id: self.id@, task: self.task@, done: self.done }
    }
}

/// Some record in `s` carries the identifier `id`.
pub open spec fn has_id(s: Seq<TodoView>, id: Seq<char>) -> bool {
    exists|i: int| 0 <= i < s.len() && s[i].id == id
}

/// The position of the record carrying `id`; meaningful when `has_id` holds
/// and the identifiers in `s` are distinct.
pub open spec fn idx_of(s: Seq<TodoView>, id: Seq<char>) -> int {
    choose|i: int| 0 <= i < s.len() && s[i].id == id
}

/// No two records in `s` share an identifier.
pub open spec fn distinct_ids(s: Seq<TodoView>) -> bool {
    forall|i: int, j: int|
        0 <= i < s.len() && 0 <= j < s.len() && i != j ==> s[i].id != s[j].id
}

/// The store invariant: identifiers are distinct and non-empty.
pub open spec fn wf_records(s: Seq<TodoView>) -> bool {
    &&& distinct_ids(s)
    &&& forall|i: int| 0 <= i < s.len() ==> s[i].id.len() > 0
}

/// `s` with the record carrying `id` taken out, or `s` itself when no record
/// carries it.
pub open spec fn without_id(s: Seq<TodoView>, id: Seq<char>) -> Seq<TodoView> {
    if has_id(s, id) {
        s.remove(idx_of(s, id))
    } else {
        s
    }
}

} // verus!
