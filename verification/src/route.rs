//! The routes of the service: which operation answers which method on which
//! path.
//!
//! The todos as a whole live at `/todos`; one todo lives at `/todos/{id}`,
//! where `{id}` stands for its id, an integer.

use vstd::prelude::*;

verus! {

/// The request methods that the service answers.
#[derive(Clone, Copy, Debug, PartialEq, Eq)]
pub enum Method {
    Get,
    Post,
    Put,
    Delete,
}

/// The five operations of the service.
#[derive(Clone, Copy, Debug, PartialEq, Eq)]
pub enum Operation {
    List,
    Create,
    GetOne,
    Update,
    Delete,
}

/// One row of the routing table.
#[derive(Clone, Copy, Debug, PartialEq, Eq)]
pub struct Route {
    pub method: Method,
    pub path: &'static str,
    pub operation: Operation,
}

/// A row of the routing table as contracts see it.
pub ghost struct RouteView {
    pub method: Method,
    pub path: Seq<char>,
    pub operation: Operation,
}

impl View for Route {
    type V = RouteView;

    open spec fn view(&self) -> RouteView {
        RouteView { method: self.method, path: self.path@, operation: self.operation }
    }
}

/// The routing table.
pub open spec fn route_table() -> Seq<RouteView> {
    seq![
        RouteView { method: Method::Get, path: "/todos"@, operation: Operation::List },
        RouteView { method: Method::Post, path: "/todos"@, operation: Operation::Create },
        RouteView { method: Method::Get, path: "/todos/{id}"@, operation: Operation::GetOne },
        RouteView { method: Method::Put, path: "/todos/{id}"@, operation: Operation::Update },
        RouteView { method: Method::Delete, path: "/todos/{id}"@, operation: Operation::Delete },
    ]
}

/// The rows of the routing table, in the order of `route_table`.
pub fn routes() -> (table: Vec<Route>)
    ensures
        table@.len() == route_table().len(),
        forall|i: int| 0 <= i < table@.len() ==> (#[trigger] table@[i])@ == route_table()[i],
{
    let mut table = Vec::new();
    table.push(Route { method: Method::Get, path: "/todos", operation: Operation::List });
    table.push(Route { method: Method::Post, path: "/todos", operation: Operation::Create });
    table.push(Route { method: Method::Get, path: "/todos/{id}", operation: Operation::GetOne });
    table.push(Route { method: Method::Put, path: "/todos/{id}", operation: Operation::Update });
    table.push(
        Route { method: Method::Delete, path: "/todos/{id}", operation: Operation::Delete },
    );
    table
}

} // verus!
