use todo_api::route::{routes, Method, Operation, Route};

#[test]
fn the_table_has_the_five_routes() {
    assert_eq!(
        routes(),
        vec![
            Route { method: Method::Get, path: "/todos", operation: Operation::List },
            Route { method: Method::Post, path: "/todos", operation: Operation::Create },
            Route { method: Method::Get, path: "/todos/{id}", operation: Operation::GetOne },
            Route { method: Method::Put, path: "/todos/{id}", operation: Operation::Update },
            Route { method: Method::Delete, path: "/todos/{id}", operation: Operation::Delete },
        ]
    );
}

#[test]
fn no_two_routes_share_method_and_path() {
    let table = routes();
    for (i, a) in table.iter().enumerate() {
        for b in table.iter().skip(i + 1) {
            assert!(a.method != b.method || a.path != b.path);
        }
    }
}

#[test]
fn every_operation_has_one_route() {
    let table = routes();
    let operations = [
        Operation::List,
        Operation::Create,
        Operation::GetOne,
        Operation::Update,
        Operation::Delete,
    ];
    for operation in operations {
        assert_eq!(table.iter().filter(|route| route.operation == operation).count(), 1);
    }
}
