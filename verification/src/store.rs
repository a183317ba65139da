//! The in-memory store of task records and its three operations: list, add
//! and delete.

use vstd::prelude::*;
use vstd::string::StringExecFns;

use crate::{Todo, TodoView, has_id, wf_records, without_id};
use crate::laws::{lemma_unique_index, lemma_without_id, lemma_distinct_push};

verus! {

/// Relies on `uuid::Uuid::new_v4` and `Display` on `Uuid`: a freshly drawn
/// random version-4 UUID, rendered in its hyphenated form of exactly 36
/// characters. The value is random, so nothing relates two calls.
#[verifier::external_body]
fn fresh_id() -> (r: String)
    ensures
        r@.len() == 36,
{
    uuid::Uuid::new_v4().to_string()
}

/// The store: a collection of task records keyed by their identifiers,
/// modelled as the sequence of the records' values.
pub struct TodoStore {
    todos: Vec<Todo>,
}

impl View for TodoStore {
    type V = Seq<TodoView>;

    closed spec fn view(&self) -> Seq<TodoView> {
        Seq::new(self.todos@.len(), |i: int| self.todos@[i]@)
    }
}

impl TodoStore {
    /// The store invariant: record identifiers are distinct and non-empty.
    pub open spec fn wf(&self) -> bool {
        wf_records(self@)
    }

    /// A fresh store, holding no records.
    pub fn new() -> (s: Self)
        ensures
            s@ =~= Seq::<TodoView>::empty(),
            s.wf(),
    {
        TodoStore { todos: Vec::new() }
    }

    /// How many records the store holds.
    pub fn len(&self) -> (n: usize)
        ensures
            n == self@.len(),
    {
        self.todos.len()
    }

    /// The position of the record carrying `id`, if one is present.
    fn find_index(&self, id: &String) -> (r: Option<usize>)
        ensures
            match r {
                Some(i) => 0 <= i < self@.len() && self@[i as int].id == id@,
                None => !has_id(self@, id@),
            },
    {
        let mut i: usize = 0;
        while i < self.todos.len()
            invariant
                i <= self.todos.len(),
                forall|j: int| 0 <= j < i ==> self@[j].id != id@,
            decreases self.todos.len() - i,
        {
            if self.todos[i].id == *id {
                return Some(i);
            }
            i = i + 1;
        }
        None
    }

    /// Whether a record with identifier `id` is present.
    pub fn contains_id(&self, id: &String) -> (present: bool)
        ensures
            present == has_id(self@, id@),
    {
        match self.find_index(id) {
            Some(i) => {
                proof {
                    assert(has_id(self@, id@));
                }
                true
            },
            None => false,
        }
    }

    /// All current records, copied out in the store's order.
    pub fn list_todos(&self) -> (r: Vec<Todo>)
        ensures
            r@.len() == self@.len(),
            forall|i: int| 0 <= i < self@.len() ==> r@[i]@ == self@[i],
    {
        let mut out: Vec<Todo> = Vec::new();
        let mut i: usize = 0;
        while i < self.todos.len()
            invariant
                i <= self.todos.len(),
                out@.len() == i,
                forall|j: int| 0 <= j < i ==> out@[j]@ == self@[j],
            decreases self.todos.len() - i,
        {
            let t = &self.todos[i];
            out.push(Todo { id: t.id.clone(), task: t.task.clone(), done: t.done });
            i = i + 1;
        }
        out
    }

    /// Create a record with a freshly generated identifier, the given task
    /// text and `done` false; insert it keyed by its identifier (displacing
    /// any record that already carried it); return a copy of it.
    pub fn add_todo(&mut self, task: String) -> (r: Todo)
        requires
            old(self).wf(),
        ensures
            final(self).wf(),
            r@.done == false,
            r@.task == task@,
            r@.id.len() == 36,
            final(self)@ =~= without_id(old(self)@, r@.id).push(r@),
            !has_id(old(self)@, r@.id) ==> final(self)@ =~= old(self)@.push(r@),
            !has_id(old(self)@, r@.id) ==> final(self)@.len() == old(self)@.len() + 1,
            has_id(final(self)@, r@.id),
            forall|id: Seq<char>|
                #[trigger] has_id(old(self)@, id) ==> has_id(final(self)@, id) || id == r@.id,
    {
        let id = fresh_id();
        let r = Todo { id: id.clone(), task: task.clone(), done: false };
        let stored = Todo { id, task, done: false };
        let ghost pre = self@;
        match self.find_index(&stored.id) {
            Some(i) => {
                proof {
                    lemma_unique_index(pre, stored.id@, i as int);
                    lemma_without_id(pre, stored.id@);
                }
                self.todos.remove(i);
                proof {
                    assert(self@ =~= pre.remove(i as int));
                    lemma_distinct_push(self@, stored@);
                }
                self.todos.push(stored);
                proof {
                    assert(self@ =~= pre.remove(i as int).push(r@));
                }
            },
            None => {
                proof {
                    lemma_without_id(pre, stored.id@);
                    lemma_distinct_push(pre, stored@);
                }
                self.todos.push(stored);
                proof {
                    assert(self@ =~= pre.push(r@));
                }
            },
        }
        proof {
            assert forall|idv: Seq<char>|
                #[trigger] has_id(pre, idv) && idv != r@.id implies has_id(self@, idv) by {
                assert(has_id(without_id(pre, r@.id), idv));
                assert(has_id(without_id(pre, r@.id).push(r@), idv));
            }
        }
        r
    }

    /// Remove the record carrying `id` if one is present, and report the
    /// outcome: a confirmation naming the deleted identifier, or a note that
    /// no such record exists (in which case the store is unchanged).
    pub fn delete_todo(&mut self, id: &String) -> (msg: String)
        requires
            old(self).wf(),
        ensures
            final(self).wf(),
            final(self)@ =~= without_id(old(self)@, id@),
            !has_id(final(self)@, id@),
            has_id(old(self)@, id@) ==> msg@ == "Deleted todo "@ + id@,
            has_id(old(self)@, id@) ==> final(self)@.len() + 1 == old(self)@.len(),
            !has_id(old(self)@, id@) ==> final(self)@ == old(self)@ && msg@ == "Todo not found"@,
            forall|other: Seq<char>|
                other != id@ ==> (#[trigger] has_id(final(self)@, other) <==> has_id(
                    old(self)@,
                    other,
                )),
    {
        let ghost pre = self@;
        match self.find_index(id) {
            Some(i) => {
                proof {
                    lemma_unique_index(pre, id@, i as int);
                    lemma_without_id(pre, id@);
                }
                self.todos.remove(i);
                proof {
                    assert(self@ =~= pre.remove(i as int));
                }
                let mut msg = String::from_str("Deleted todo ");
                msg.append(id.as_str());
                msg
            },
            None => String::from_str("Todo not found"),
        }
    }
}

} // verus!
