//! What a handler gives back: a status and a payload.

use vstd::prelude::*;
use crate::model::{todo_views, Todo, TodoView};

verus! {

/// The statuses that the service answers with.
#[derive(Clone, Copy, Debug, PartialEq, Eq, Structural)]
pub enum Status {
    /// 200
    Success,
    /// 204
    NoContent,
    /// 404
    NotFound,
    /// 409
    Conflict,
}

impl Status {
    /// The number of the status.
    pub open spec fn spec_code(self) -> u16 {
        match self {
            Status::Success => 200,
            Status::NoContent => 204,
            Status::NotFound => 404,
            Status::Conflict => 409,
        }
    }

    /// The number of the status.
    pub fn code(&self) -> (c: u16)
        ensures
            c == self.spec_code(),
    {
        match self {
            Status::Success => 200,
            Status::NoContent => 204,
            Status::NotFound => 404,
            Status::Conflict => 409,
        }
    }
}

/// A payload sent under a status other than 200.
#[derive(Debug)]
pub struct Custom<R>(pub Status, pub R);

/// A payload that carries only a message.
#[derive(Debug)]
pub struct GenericResponse {
    pub status: String,
    pub message: String,
}

/// What a [`GenericResponse`] holds.
pub struct GenericView {
    pub status: Seq<char>,
    pub message: Seq<char>,
}

impl View for GenericResponse {
    type V = GenericView;

    open spec fn view(&self) -> GenericView {
        GenericView { status: self.status@, message: self.message@ }
    }
}

/// The inner wrapper of a single todo.
#[derive(Debug)]
pub struct TodoData {
    pub data: Todo,
}

/// The payload that carries a single todo.
#[derive(Debug)]
pub struct SingleTodoResponse {
    pub status: String,
    pub data: TodoData,
}

/// What a [`SingleTodoResponse`] holds.
pub struct SingleView {
    pub status: Seq<char>,
    pub todo: TodoView,
}

impl View for SingleTodoResponse {
    type V = SingleView;

    open spec fn view(&self) -> SingleView {
        SingleView { status: self.status@, todo: self.data.data@ }
    }
}

/// The payload that carries a page of todos and their number.
#[derive(Debug)]
pub struct TodoListResponse {
    pub status: String,
    pub results: usize,
    pub todos: Vec<Todo>,
}

/// What a [`TodoListResponse`] holds.
pub struct ListView {
    pub status: Seq<char>,
    pub results: nat,
    pub todos: Seq<TodoView>,
}

impl View for TodoListResponse {
    type V = ListView;

    open spec fn view(&self) -> ListView {
        ListView {
            status: self.status@,
            results: self.results as nat,
            todos: todo_views(self.todos@),
        }
    }
}

/// The payload of a success that carries `todo`.
pub open spec fn success_with(todo: TodoView) -> SingleView {
    SingleView { status: "success"@, todo }
}

/// The payload of a success that carries `todos`.
pub open spec fn success_list(todos: Seq<TodoView>) -> ListView {
    ListView { status: "success"@, results: todos.len(), todos }
}

/// The payload that carries `todo` as a success.
pub fn single(todo: Todo) -> (r: SingleTodoResponse)
    ensures
        r@ == success_with(todo@),
{
    SingleTodoResponse { status: "success".to_owned(), data: TodoData { data: todo } }
}

/// The payload with the given status word and message.
pub fn generic(status: &str, message: String) -> (r: GenericResponse)
    ensures
        r@ == (GenericView { status: status@, message: message@ }),
{
    GenericResponse { status: status.to_owned(), message }
}

} // verus!
