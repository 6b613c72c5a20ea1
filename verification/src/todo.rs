//! The todo item.

use vstd::prelude::*;

verus! {

/// A todo item, mathematically.
pub struct TodoView {
    pub id: Seq<char>,
    pub task: Seq<char>,
}

/// An identified task description. The identifier is given once, when the
/// item is made; nothing changes an item afterwards.
#[derive(Debug, Clone, PartialEq, Eq)]
pub struct Todo {
    id: String,
    task: String,
}

impl View for Todo {
    type V = TodoView;

    closed spec fn view(&self) -> TodoView {
        TodoView { id: self.id@, task: self.task@ }
    }
}

/// The items of a sequence of todo values.
pub open spec fn views_of(todos: Seq<Todo>) -> Seq<TodoView> {
    Seq::new(todos.len(), |i: int| todos[i]@)
}

impl Todo {
    /// The item with the given identifier and the given text.
    pub fn new(id: String, task: String) -> (r: Todo)
        ensures
            r@ == (TodoView { id: id@, task: task@ }),
    {
        Todo { id, task }
    }

    /// The identifier.
    pub fn id(&self) -> (r: &String)
        ensures
            r@ == self@.id,
    {
        &self.id
    }

    /// The task text.
    pub fn task(&self) -> (r: &String)
        ensures
            r@ == self@.task,
    {
        &self.task
    }
}

} // verus!
