//! The records the service keeps, and their mathematical views.

use vstd::prelude::*;

verus! {

/// A point in time: whole seconds since 1970-01-01T00:00:00Z, and the
/// nanoseconds past that second.
#[derive(Clone, Copy, Debug, PartialEq, Eq, Structural)]
pub struct Timestamp {
    pub secs: i64,
    pub nanos: u32,
}

impl Timestamp {
    /// Whether `self` lies strictly after `other`.
    pub open spec fn is_after(self, other: Timestamp) -> bool {
        self.secs > other.secs || (self.secs == other.secs && self.nanos > other.nanos)
    }

    /// Whether `self` lies strictly after `other`.
    pub fn later_than(&self, other: &Timestamp) -> (r: bool)
        ensures
            r == self.is_after(*other),
    {
        self.secs > other.secs || (self.secs == other.secs && self.nanos > other.nanos)
    }
}

/// A task record. A request to create one carries `title` and `content`;
/// the other fields are set by the service when the record is stored.
#[allow(non_snake_case)]
#[derive(Debug)]
pub struct Todo {
    pub id: Option<String>,
    pub title: String,
    pub content: String,
    pub completed: Option<bool>,
    pub createdAt: Option<Timestamp>,
    pub updatedAt: Option<Timestamp>,
}

/// What a [`Todo`] holds, with each text as its sequence of characters.
#[allow(non_snake_case)]
pub struct TodoView {
    pub id: Option<Seq<char>>,
    pub title: Seq<char>,
    pub content: Seq<char>,
    pub completed: Option<bool>,
    pub createdAt: Option<Timestamp>,
    pub updatedAt: Option<Timestamp>,
}

/// The characters of an optional text.
pub open spec fn text_view(s: Option<String>) -> Option<Seq<char>> {
    match s {
        Some(t) => Some(t@),
        None => None,
    }
}

impl View for Todo {
    type V = TodoView;

    open spec fn view(&self) -> TodoView {
        TodoView {
            id: text_view(self.id),
            title: self.title@,
            content: self.content@,
            completed: self.completed,
            createdAt: self.createdAt,
            updatedAt: self.updatedAt,
        }
    }
}

/// A copy of an optional text.
pub fn clone_text(s: &Option<String>) -> (r: Option<String>)
    ensures
        r == *s,
{
    match s {
        Some(t) => Some(t.clone()),
        None => None,
    }
}

impl Clone for Todo {
    fn clone(&self) -> (r: Self)
        ensures
            r == *self,
    {
        Todo {
            id: clone_text(&self.id),
            title: self.title.clone(),
            content: self.content.clone(),
            completed: self.completed,
            createdAt: self.createdAt,
            updatedAt: self.updatedAt,
        }
    }
}

/// A partial update: only the fields that are present take part in an edit.
#[derive(Debug)]
pub struct UpdateTodoSchema {
    pub title: Option<String>,
    pub content: Option<String>,
    pub completed: Option<bool>,
}

/// What an [`UpdateTodoSchema`] holds, with each text as its sequence of
/// characters.
pub struct PatchView {
    pub title: Option<Seq<char>>,
    pub content: Option<Seq<char>>,
    pub completed: Option<bool>,
}

impl View for UpdateTodoSchema {
    type V = PatchView;

    open spec fn view(&self) -> PatchView {
        PatchView {
            title: text_view(self.title),
            content: text_view(self.content),
            completed: self.completed,
        }
    }
}

/// The state that every handler works on: the todos, in the order in which
/// they were created.
#[allow(non_snake_case)]
#[derive(Debug)]
pub struct AppState {
    pub todoDB: Vec<Todo>,
}

/// The views of a sequence of todos, in their order.
pub open spec fn todo_views(todos: Seq<Todo>) -> Seq<TodoView> {
    todos.map_values(|t: Todo| t@)
}

impl View for AppState {
    type V = Seq<TodoView>;

    open spec fn view(&self) -> Seq<TodoView> {
        todo_views(self.todoDB@)
    }
}

impl AppState {
    /// The state at startup: no todos.
    pub fn init() -> (state: AppState)
        ensures
            state@ == Seq::<TodoView>::empty(),
    {
        AppState { todoDB: Vec::new() }
    }
}

} // verus!
