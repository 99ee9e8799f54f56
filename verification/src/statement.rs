//! The SQL statements of the service, one for the table and one for each
//! operation, with the values bound to their placeholders.
//!
//! The table is `todo(id INTEGER PRIMARY KEY AUTOINCREMENT, content TEXT)`.
//! Placeholders are written `?` and take the bound values in order.

use crate::todo::NewTodo;
use vstd::prelude::*;

verus! {

/// A value bound to a placeholder.
#[derive(Clone, Debug, PartialEq, Eq)]
pub enum Param {
    Integer(i32),
    Text(String),
}

/// A bound value as contracts see it.
pub ghost enum ParamView {
    Integer(int),
    Text(Seq<char>),
}

impl View for Param {
    type V = ParamView;

    open spec fn view(&self) -> ParamView {
        match self {
            Param::Integer(value) => ParamView::Integer(*value as int),
            Param::Text(text) => ParamView::Text(text@),
        }
    }
}

/// One SQL statement and the values for its placeholders, in order.
#[derive(Clone, Debug, PartialEq, Eq)]
pub struct Statement {
    pub sql: &'static str,
    pub params: Vec<Param>,
}

/// A statement as contracts see it.
pub ghost struct StatementView {
    pub sql: Seq<char>,
    pub params: Seq<ParamView>,
}

impl View for Statement {
    type V = StatementView;

    open spec fn view(&self) -> StatementView {
        StatementView {
            sql: self.sql@,
            params: Seq::new(self.params@.len(), |i: int| self.params@[i]@),
        }
    }
}

/// Creates the table unless it is there already.
pub open spec fn create_table() -> StatementView {
    StatementView {
        sql: "CREATE TABLE IF NOT EXISTS todo (id INTEGER PRIMARY KEY AUTOINCREMENT, content TEXT)"@,
        params: Seq::empty(),
    }
}

/// Reads every todo.
pub open spec fn select_all() -> StatementView {
    StatementView { sql: "SELECT * FROM todo"@, params: Seq::empty() }
}

/// Stores a new todo with the given text; the engine assigns the id.
pub open spec fn insert(content: Seq<char>) -> StatementView {
    StatementView {
        sql: "INSERT INTO todo (content) VALUES (?)"@,
        params: seq![ParamView::Text(content)],
    }
}

/// Reads the todo with the given id.
pub open spec fn select_one(id: int) -> StatementView {
    StatementView { sql: "SELECT * FROM todo WHERE id = ?"@, params: seq![ParamView::Integer(id)] }
}

/// Replaces the text of the todo with the given id.
pub open spec fn update(id: int, content: Seq<char>) -> StatementView {
    StatementView {
        sql: "UPDATE todo SET content = ? WHERE id = ?"@,
        params: seq![ParamView::Text(content), ParamView::Integer(id)],
    }
}

/// Removes the todo with the given id.
pub open spec fn delete(id: int) -> StatementView {
    StatementView { sql: "DELETE FROM todo WHERE id = ?"@, params: seq![ParamView::Integer(id)] }
}

/// The statement that prepares the storage: it creates the table of todos if
/// the table does not exist yet, and changes nothing otherwise.
pub fn schema_statement() -> (statement: Statement)
    ensures
        statement@ == create_table(),
{
    let statement = Statement {
        sql: "CREATE TABLE IF NOT EXISTS todo (id INTEGER PRIMARY KEY AUTOINCREMENT, content TEXT)",
        params: Vec::new(),
    };
    assert(statement@.params =~= Seq::empty());
    statement
}

/// The statement of the list operation.
pub fn get_todo_list_statement() -> (statement: Statement)
    ensures
        statement@ == select_all(),
{
    let statement = Statement { sql: "SELECT * FROM todo", params: Vec::new() };
    assert(statement@.params =~= Seq::empty());
    statement
}

/// The statement of the create operation: it binds the text of the request as
/// it is.
pub fn add_todo_statement(todo: &NewTodo) -> (statement: Statement)
    ensures
        statement@ == insert(todo@),
{
    let mut params = Vec::new();
    params.push(Param::Text(todo.content.clone()));
    let statement = Statement { sql: "INSERT INTO todo (content) VALUES (?)", params };
    assert(statement@.params =~= seq![ParamView::Text(todo@)]);
    statement
}

/// The statement of the get operation.
pub fn get_single_todo_statement(id: i32) -> (statement: Statement)
    ensures
        statement@ == select_one(id as int),
{
    let mut params = Vec::new();
    params.push(Param::Integer(id));
    let statement = Statement { sql: "SELECT * FROM todo WHERE id = ?", params };
    assert(statement@.params =~= seq![ParamView::Integer(id as int)]);
    statement
}

/// The statement of the update operation: the new text first, then the id.
pub fn update_todo_statement(id: i32, todo: &NewTodo) -> (statement: Statement)
    ensures
        statement@ == update(id as int, todo@),
{
    let mut params = Vec::new();
    params.push(Param::Text(todo.content.clone()));
    params.push(Param::Integer(id));
    let statement = Statement { sql: "UPDATE todo SET content = ? WHERE id = ?", params };
    assert(statement@.params =~= seq![ParamView::Text(todo@), ParamView::Integer(id as int)]);
    statement
}

/// The statement of the delete operation.
pub fn delete_todo_statement(id: i32) -> (statement: Statement)
    ensures
        statement@ == delete(id as int),
{
    let mut params = Vec::new();
    params.push(Param::Integer(id));
    let statement = Statement { sql: "DELETE FROM todo WHERE id = ?", params };
    assert(statement@.params =~= seq![ParamView::Integer(id as int)]);
    statement
}

} // verus!
