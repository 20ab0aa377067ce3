//! What the service is at startup: where it is mounted, which endpoint
//! answers which method and path, and the state it begins with.

use vstd::prelude::*;
use crate::model::{AppState, TodoView};

verus! {

/// The request methods that the service answers.
#[derive(Clone, Copy, Debug, PartialEq, Eq, Structural)]
pub enum Method {
    Get,
    Post,
    Patch,
    Delete,
}

/// The endpoints, each named after its handler.
#[derive(Clone, Copy, Debug, PartialEq, Eq, Structural)]
pub enum Endpoint {
    HealthChecker,
    TodosList,
    CreateTodo,
    GetTodo,
    EditTodo,
    DeleteTodo,
}

/// One line of the routing table. In `path`, `<id>` stands for the id of a
/// todo.
#[derive(Debug)]
pub struct Route {
    pub method: Method,
    pub path: String,
    pub endpoint: Endpoint,
}

/// What a [`Route`] holds.
pub struct RouteView {
    pub method: Method,
    pub path: Seq<char>,
    pub endpoint: Endpoint,
}

impl View for Route {
    type V = RouteView;

    open spec fn view(&self) -> RouteView {
        RouteView { method: self.method, path: self.path@, endpoint: self.endpoint }
    }
}

/// The service as it is launched.
#[derive(Debug)]
pub struct Service {
    /// The prefix under which every route is mounted.
    pub base: String,
    pub routes: Vec<Route>,
    pub state: AppState,
}

/// The routing table of the service.
pub open spec fn routing_table() -> Seq<RouteView> {
    seq![
        RouteView { method: Method::Get, path: "/healthchecker"@, endpoint: Endpoint::HealthChecker },
        RouteView { method: Method::Get, path: "/todos"@, endpoint: Endpoint::TodosList },
        RouteView { method: Method::Post, path: "/todos"@, endpoint: Endpoint::CreateTodo },
        RouteView { method: Method::Get, path: "/todos/<id>"@, endpoint: Endpoint::GetTodo },
        RouteView { method: Method::Patch, path: "/todos/<id>"@, endpoint: Endpoint::EditTodo },
        RouteView { method: Method::Delete, path: "/todos/<id>"@, endpoint: Endpoint::DeleteTodo },
    ]
}

fn route(method: Method, path: &str, endpoint: Endpoint) -> (r: Route)
    ensures
        r@ == (RouteView { method, path: path@, endpoint }),
{
    Route { method, path: path.to_owned(), endpoint }
}

/// The service at startup: mounted under `/api`, with the six routes of
/// [`routing_table`] and no todos.
pub fn rocket() -> (service: Service)
    ensures
        service.base@ == "/api"@,
        service.routes@.map_values(|r: Route| r@) == routing_table(),
        service.state@ == Seq::<TodoView>::empty(),
{
    let mut routes: Vec<Route> = Vec::new();
    routes.push(route(Method::Get, "/healthchecker", Endpoint::HealthChecker));
    routes.push(route(Method::Get, "/todos", Endpoint::TodosList));
    routes.push(route(Method::Post, "/todos", Endpoint::CreateTodo));
    routes.push(route(Method::Get, "/todos/<id>", Endpoint::GetTodo));
    routes.push(route(Method::Patch, "/todos/<id>", Endpoint::EditTodo));
    routes.push(route(Method::Delete, "/todos/<id>", Endpoint::DeleteTodo));
    assert(routes@.map_values(|r: Route| r@) =~= routing_table());
    Service { base: "/api".to_owned(), routes, state: AppState::init() }
}

} // verus!
