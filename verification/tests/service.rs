use todo_api::handler::{DEFAULT_LIMIT, DEFAULT_PAGE};
use todo_api::server::{rocket, Endpoint, Method};

#[test]
fn service_starts_empty_under_api() {
    let service = rocket();
    assert_eq!(service.base, "/api");
    assert!(service.state.todoDB.is_empty());
}

#[test]
fn service_routes() {
    let service = rocket();
    let table: Vec<(Method, &str, Endpoint)> =
        service.routes.iter().map(|r| (r.method, r.path.as_str(), r.endpoint)).collect();
    assert_eq!(
        table,
        vec![
            (Method::Get, "/healthchecker", Endpoint::HealthChecker),
            (Method::Get, "/todos", Endpoint::TodosList),
            (Method::Post, "/todos", Endpoint::CreateTodo),
            (Method::Get, "/todos/<id>", Endpoint::GetTodo),
            (Method::Patch, "/todos/<id>", Endpoint::EditTodo),
            (Method::Delete, "/todos/<id>", Endpoint::DeleteTodo),
        ]
    );
}

#[test]
fn list_defaults() {
    assert_eq!(DEFAULT_PAGE, 1);
    assert_eq!(DEFAULT_LIMIT, 10);
}
