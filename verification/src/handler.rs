//! The response of each operation, decided from what its statement gave back.
//!
//! A statement that reads gives back rows; one that writes gives back the
//! number of rows it changed. A write that changed no row found no todo with
//! the id asked for: that number is the only sign of a missing todo.

use crate::decimal::{append_decimal, decimal};
use crate::json::{
    lemma_list_json_injective, lemma_todo_json_injective, list_json, todo_json, todo_to_json,
    todos_to_json,
};
use crate::statement::{insert, ParamView};
use crate::todo::{row_view, views, Todo, TodoView};
use vstd::prelude::*;
use vstd::string::*;

verus! {

/// The status of a response that carries what was asked for.
pub const OK: u16 = 200;

/// The status of a response to a request for a todo that is not there.
pub const NOT_FOUND: u16 = 404;

/// A status code and a body of plain text or JSON text.
#[derive(Clone, Debug, PartialEq, Eq)]
pub struct Response {
    pub status: u16,
    pub body: String,
}

/// A response as contracts see it.
pub ghost struct ResponseView {
    pub status: int,
    pub body: Seq<char>,
}

impl View for Response {
    type V = ResponseView;

    open spec fn view(&self) -> ResponseView {
        ResponseView { status: self.status as int, body: self.body@ }
    }
}

/// The response to a list request: every todo, as a JSON array.
pub open spec fn listed(todos: Seq<TodoView>) -> ResponseView {
    ResponseView { status: 200, body: list_json(todos) }
}

/// The response to a create request.
pub open spec fn created() -> ResponseView {
    ResponseView { status: 200, body: "OK"@ }
}

/// The response to a get request: the todo as a JSON object, or the notice
/// that there is none.
pub open spec fn fetched(row: Option<TodoView>) -> ResponseView {
    match row {
        Some(todo) => ResponseView { status: 200, body: todo_json(todo) },
        None => ResponseView { status: 404, body: "Not Found"@ },
    }
}

/// The response to an update request that changed `rows_affected` rows.
pub open spec fn updated(rows_affected: int) -> ResponseView {
    if rows_affected == 0 {
        ResponseView { status: 404, body: "Todo not found"@ }
    } else {
        ResponseView { status: 200, body: "Todo Updated"@ }
    }
}

/// The response to a request to delete the todo `id` that removed
/// `rows_affected` rows. The notice of a missing todo names the id in decimal.
pub open spec fn deleted(id: int, rows_affected: int) -> ResponseView {
    if rows_affected == 0 {
        ResponseView { status: 404, body: "No Todo with id: "@ + decimal(id) + " found!"@ }
    } else {
        ResponseView { status: 200, body: "Todo Deleted"@ }
    }
}

/// Answers a list request with the rows that the statement read, in the order
/// in which it gave them.
pub fn get_todo_list(todos: &Vec<Todo>) -> (response: Response)
    ensures
        response@ == listed(views(todos@)),
{
    Response { status: OK, body: todos_to_json(todos) }
}

/// Answers a create request whose statement has run.
pub fn add_todo() -> (response: Response)
    ensures
        response@ == created(),
{
    Response { status: OK, body: String::from_str("OK") }
}

/// Answers a get request with the row that the statement read, if it read
/// one.
pub fn get_single_todo(row: &Option<Todo>) -> (response: Response)
    ensures
        response@ == fetched(row_view(*row)),
{
    match row {
        Some(todo) => Response { status: OK, body: todo_to_json(todo) },
        None => Response { status: NOT_FOUND, body: String::from_str("Not Found") },
    }
}

/// Answers an update request whose statement changed `rows_affected` rows.
pub fn update_todo(rows_affected: u64) -> (response: Response)
    ensures
        response@ == updated(rows_affected as int),
{
    if rows_affected == 0 {
        Response { status: NOT_FOUND, body: String::from_str("Todo not found") }
    } else {
        Response { status: OK, body: String::from_str("Todo Updated") }
    }
}

/// Answers a request to delete the todo `id` whose statement removed
/// `rows_affected` rows.
pub fn delete_todo(id: i32, rows_affected: u64) -> (response: Response)
    ensures
        response@ == deleted(id as int, rows_affected as int),
{
    if rows_affected == 0 {
        let mut body = String::from_str("No Todo with id: ");
        append_decimal(&mut body, id);
        body.append(" found!");
        Response { status: NOT_FOUND, body }
    } else {
        Response { status: OK, body: String::from_str("Todo Deleted") }
    }
}

/// The text of a todo survives the way in and the way out. The create
/// statement binds the text of the request unchanged. The answer to a get
/// request that reads a row with that text under `id` has status 200, and its
/// body is the JSON object of that id and that text and of no other todo:
/// nothing is cut off, and no escape can be read as another text.
pub proof fn lemma_created_text_is_read_back(id: int, text: Seq<char>)
    ensures
        insert(text).params == seq![ParamView::Text(text)],
        fetched(Some(TodoView { id, content: text })).status == 200,
        fetched(Some(TodoView { id, content: text })).body == todo_json(
            TodoView { id, content: text },
        ),
        forall|other: TodoView| #[trigger]
            todo_json(other) == fetched(Some(TodoView { id, content: text })).body ==> other == (
            TodoView { id, content: text }),
{
    let row = TodoView { id, content: text };
    assert forall|other: TodoView| #[trigger] todo_json(other) == fetched(Some(row)).body implies other
        == row by {
        lemma_todo_json_injective(other, row);
    }
}

/// The answer to a list request leaves no row out. It has status 200, and its
/// body is the JSON array of the rows read, each with its id and its text, in
/// the order read, and of no other list.
pub proof fn lemma_list_names_every_row(rows: Seq<TodoView>)
    ensures
        listed(rows).status == 200,
        listed(rows).body == list_json(rows),
        forall|other: Seq<TodoView>| #[trigger] list_json(other) == listed(rows).body ==> other == rows,
{
    assert forall|other: Seq<TodoView>| #[trigger] list_json(other) == listed(rows).body implies other
        == rows by {
        lemma_list_json_injective(other, rows);
    }
}

} // verus!
