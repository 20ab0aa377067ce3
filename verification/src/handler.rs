//! The request handlers: one per endpoint. Each takes what the request
//! carries and the state, and gives back the status and payload to send.

use vstd::prelude::*;
use vstd::string::StringExecFns;
use crate::ambient::{is_clock_reading, is_hyphenated, new_id, now};
use crate::model::{AppState, TodoView, Todo, UpdateTodoSchema};
use crate::response::{
    generic, single, success_list, success_with, Custom, GenericResponse, GenericView,
    SingleTodoResponse, Status, TodoListResponse,
};
use crate::store::{
    created, edited, has_id, has_title, is_first_with_id, well_formed, window, without_id,
};

verus! {

/// The page size when a request names none.
pub const DEFAULT_LIMIT: usize = 10;

/// The page when a request names none.
pub const DEFAULT_PAGE: usize = 1;

/// The payload of the health check.
pub open spec fn alive() -> GenericView {
    GenericView { status: "success"@, message: "Building simple API with Rust and Rocket"@ }
}

/// The payload sent when a todo with the same title exists.
pub open spec fn title_exists() -> GenericView {
    GenericView { status: "error"@, message: "Title already exists"@ }
}

/// The payload sent when a lookup or an edit finds no todo.
pub open spec fn todo_not_found() -> GenericView {
    GenericView { status: "error"@, message: "Todo not found"@ }
}

/// The payload sent when there is no todo with the id `id` to delete.
pub open spec fn nothing_to_delete(id: Seq<char>) -> GenericView {
    GenericView { status: "fail"@, message: "Todo with id: "@ + id + " not found"@ }
}

/// The todos of page `page` when a page holds `limit` of them: pages are
/// counted from 1, and page `page` starts at the position
/// `(page - 1) * limit`. A page that starts outside `s` is empty, and so is
/// page 0.
pub open spec fn page_of(s: Seq<TodoView>, page: int, limit: int) -> Seq<TodoView> {
    window(s, (page - 1) * limit, limit)
}

/// The page that a request asks for, or the default.
pub open spec fn page_or_default(page: Option<usize>) -> int {
    match page {
        Some(p) => p as int,
        None => DEFAULT_PAGE as int,
    }
}

/// The page size that a request asks for, or the default.
pub open spec fn limit_or_default(limit: Option<usize>) -> int {
    match limit {
        Some(l) => l as int,
        None => DEFAULT_LIMIT as int,
    }
}

/// Answers that the service is up.
pub fn healthchecker() -> (r: Result<GenericResponse, Status>)
    ensures
        r matches Ok(p) && p@ == alive(),
{
    Ok(generic("success", "Building simple API with Rust and Rocket".to_owned()))
}

/// Lists one page of the todos, in the order in which they were created.
pub fn todos_list_handler(page: Option<usize>, limit: Option<usize>, data: &AppState) -> (r:
    Result<TodoListResponse, Status>)
    ensures
        r matches Ok(p) && p@ == success_list(
            page_of(data@, page_or_default(page), limit_or_default(limit)),
        ),
{
    let limit = match limit {
        Some(l) => l,
        None => DEFAULT_LIMIT,
    };
    let page = match page {
        Some(p) => p,
        None => DEFAULT_PAGE,
    };
    let ghost listed = page_of(data@, page as int, limit as int);
    let stored = data.todoDB.len();
    let todos = if page == 0 {
        assert((page - 1) * limit == -limit) by (nonlinear_arith)
            requires
                page == 0,
        ;
        assert(listed =~= Seq::empty());
        Vec::new()
    } else {
        match (page - 1).checked_mul(limit) {
            Some(offset) => data.list(offset, limit),
            None => {
                assert((page - 1) * limit > stored);
                Vec::new()
            },
        }
    };
    assert(crate::model::todo_views(todos@) =~= listed);
    Ok(TodoListResponse { status: "success".to_owned(), results: todos.len(), todos })
}

/// Creates a todo with the title and content of `body`, under a newly drawn
/// id and the current time, unless a todo with exactly that title exists.
/// The id is drawn at random; that no stored todo carries it already is not
/// promised.
pub fn create_todo_handler(body: Todo, data: &mut AppState) -> (r: Result<
    SingleTodoResponse,
    Custom<GenericResponse>,
>)
    ensures
        match r {
            Ok(p) => {
                &&& !has_title(old(data)@, body@.title)
                &&& p@.status == "success"@
                &&& p@.todo.id matches Some(id) && is_hyphenated(id) && id[14] == '4'
                &&& p@.todo.createdAt matches Some(at) && is_clock_reading(at) && p@.todo
                    == created(body@, p@.todo.id.unwrap(), at)
                &&& final(data)@ == old(data)@.push(p@.todo)
            },
            Err(e) => {
                &&& has_title(old(data)@, body@.title)
                &&& e.0 == Status::Conflict
                &&& e.1@ == title_exists()
                &&& final(data)@ == old(data)@
            },
        },
        well_formed(old(data)@) ==> well_formed(final(data)@),
{
    if data.title_taken(&body.title) {
        return Err(conflict());
    }
    let id = new_id();
    let at = now();
    match data.insert(body, id, at) {
        Ok(todo) => Ok(single(todo)),
        Err(_) => Err(conflict()),
    }
}

/// Looks up the todo with the id `id` (the first, should several have it).
pub fn get_todo_handler(id: String, data: &AppState) -> (r: Result<
    SingleTodoResponse,
    Custom<GenericResponse>,
>)
    ensures
        match r {
            Ok(p) => {
                &&& has_id(data@, id@)
                &&& p@.status == "success"@
                &&& forall|k: int| #[trigger] is_first_with_id(data@, id@, k) ==> p@.todo == data@[k]
            },
            Err(e) => {
                &&& !has_id(data@, id@)
                &&& e.0 == Status::NotFound
                &&& e.1@ == todo_not_found()
            },
        },
{
    match data.find(&id) {
        Ok(todo) => Ok(single(todo)),
        Err(_) => Err(not_found()),
    }
}

/// Edits the todo with the id `id` and stamps it with the current time.
/// `completed` is set whenever `body` supplies it. A title or content that
/// `body` supplies never replaces the stored text: an empty one clears the
/// field, any other leaves it as it is (see [`edited`]).
pub fn edit_todo_handler(id: String, body: UpdateTodoSchema, data: &mut AppState) -> (r: Result<
    SingleTodoResponse,
    Custom<GenericResponse>,
>)
    ensures
        match r {
            Ok(p) => {
                &&& has_id(old(data)@, id@)
                &&& p@.status == "success"@
                &&& p@.todo.updatedAt matches Some(at) && is_clock_reading(at) && forall|k: int| #[trigger]
                    is_first_with_id(old(data)@, id@, k) ==> p@.todo == edited(
                        old(data)@[k],
                        body@,
                        at,
                    ) && final(data)@ == old(data)@.update(k, p@.todo)
            },
            Err(e) => {
                &&& !has_id(old(data)@, id@)
                &&& e.0 == Status::NotFound
                &&& e.1@ == todo_not_found()
                &&& final(data)@ == old(data)@
            },
        },
        well_formed(old(data)@) ==> well_formed(final(data)@),
{
    if data.position(&id).is_none() {
        return Err(not_found());
    }
    let at = now();
    match data.update(&id, &body, at) {
        Ok(todo) => Ok(single(todo)),
        Err(_) => Err(not_found()),
    }
}

/// Deletes the todo with the id `id` (every one, should several have it).
pub fn delete_todo_handler(id: String, data: &mut AppState) -> (r: Result<
    Status,
    Custom<GenericResponse>,
>)
    ensures
        match r {
            Ok(status) => {
                &&& has_id(old(data)@, id@)
                &&& status == Status::NoContent
                &&& final(data)@ == without_id(old(data)@, id@)
            },
            Err(e) => {
                &&& !has_id(old(data)@, id@)
                &&& e.0 == Status::NotFound
                &&& e.1@ == nothing_to_delete(id@)
                &&& final(data)@ == old(data)@
            },
        },
        well_formed(old(data)@) ==> well_formed(final(data)@),
{
    match data.delete(&id) {
        Ok(()) => Ok(Status::NoContent),
        Err(_) => {
            let mut message = "Todo with id: ".to_owned();
            message.append(id.as_str());
            message.append(" not found");
            Err(Custom(Status::NotFound, generic("fail", message)))
        },
    }
}

/// The answer to a create whose title is taken.
fn conflict() -> (e: Custom<GenericResponse>)
    ensures
        e.0 == Status::Conflict,
        e.1@ == title_exists(),
{
    Custom(Status::Conflict, generic("error", "Title already exists".to_owned()))
}

/// The answer to a lookup or an edit that finds nothing.
fn not_found() -> (e: Custom<GenericResponse>)
    ensures
        e.0 == Status::NotFound,
        e.1@ == todo_not_found(),
{
    Custom(Status::NotFound, generic("error", "Todo not found".to_owned()))
}

} // verus!
