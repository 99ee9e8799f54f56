//! The rules of a small todo service, kept apart from its transport and its
//! storage.
//!
//! A todo is an integer id and a text. The service offers five operations over
//! one table of todos: list, create, get one, update and delete. For each
//! operation this crate says which SQL statement is to run and with which
//! bound values, and which response follows from what the statement gave
//! back. Running the statement and sending the response is left to the caller.

pub mod decimal;
pub mod handler;
pub mod json;
pub mod route;
pub mod statement;
pub mod todo;
