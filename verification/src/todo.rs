//! The record of the service and the body of a create or update request.

use vstd::prelude::*;

verus! {

/// One stored todo: the id that the storage engine assigned and the text.
#[derive(Clone, Debug, PartialEq, Eq)]
pub struct Todo {
    pub id: i32,
    pub content: String,
}

/// What a create or an update request carries: the text alone.
#[derive(Clone, Debug, PartialEq, Eq)]
pub struct NewTodo {
    pub content: String,
}

/// A todo as contracts see it.
pub ghost struct TodoView {
    pub id: int,
    pub content: Seq<char>,
}

impl View for Todo {
    type V = TodoView;

    open spec fn view(&self) -> TodoView {
        TodoView { id: self.id as int, content: self.content@ }
    }
}

impl View for NewTodo {
    type V = Seq<char>;

    open spec fn view(&self) -> Seq<char> {
        self.content@
    }
}

/// The views of a list of todos, in order.
pub open spec fn views(todos: Seq<Todo>) -> Seq<TodoView> {
    Seq::new(todos.len(), |i: int| todos[i]@)
}

/// The view of a row that may be missing.
pub open spec fn row_view(row: Option<Todo>) -> Option<TodoView> {
    match row {
        Some(todo) => Some(todo@),
        None => None,
    }
}

impl Todo {
    /// A todo with the given id and text.
    pub fn new(id: i32, content: String) -> (todo: Todo)
        ensures
            todo@ == (TodoView { id: id as int, content: content@ }),
    {
        Todo { id, content }
    }
}

impl NewTodo {
    /// A request body with the given text.
    pub fn new(content: String) -> (body: NewTodo)
        ensures
            body@ == content@,
    {
        NewTodo { content }
    }
}

} // verus!
