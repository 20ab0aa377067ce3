//! The store: an ordered sequence of todos with lookup by id, uniqueness of
//! titles on insertion, in-place edits and removal.

use vstd::prelude::*;
use crate::model::{
    clone_text, text_view, todo_views, AppState, PatchView, Timestamp, Todo, TodoView,
    UpdateTodoSchema,
};

verus! {

/// Why the store refused an operation.
#[derive(Clone, Copy, Debug, PartialEq, Eq, Structural)]
pub enum StoreError {
    /// A todo with the same title is already stored.
    Conflict,
    /// No todo has the given id.
    NotFound,
}

/// Some todo of `s` has the title `title`.
pub open spec fn has_title(s: Seq<TodoView>, title: Seq<char>) -> bool {
    exists|i: int| #![trigger s[i]] 0 <= i < s.len() && s[i].title == title
}

/// Some todo of `s` has the id `id`.
pub open spec fn has_id(s: Seq<TodoView>, id: Seq<char>) -> bool {
    exists|i: int| #![trigger s[i]] 0 <= i < s.len() && s[i].id == Some(id)
}

/// `k` is the position of the first todo of `s` with the id `id`.
pub open spec fn is_first_with_id(s: Seq<TodoView>, id: Seq<char>, k: int) -> bool {
    &&& 0 <= k < s.len()
    &&& s[k].id == Some(id)
    &&& forall|j: int| #![trigger s[j]] 0 <= j < k ==> s[j].id != Some(id)
}

/// What one text field of a todo holds after an edit. A supplied text never
/// replaces the stored one: it takes effect only when it is empty, and then
/// clears the field. In every other case the stored text stays.
pub open spec fn edited_text(stored: Seq<char>, supplied: Option<Seq<char>>) -> Seq<char> {
    match supplied {
        Some(t) => if t.len() == 0 { t } else { stored },
        None => stored,
    }
}

/// The todo that an edit at time `now` puts in the place of `stored`.
pub open spec fn edited(stored: TodoView, patch: PatchView, now: Timestamp) -> TodoView {
    TodoView {
        id: stored.id,
        title: edited_text(stored.title, patch.title),
        content: edited_text(stored.content, patch.content),
        completed: if patch.completed is Some { patch.completed } else { stored.completed },
        createdAt: stored.createdAt,
        updatedAt: Some(now),
    }
}

/// The todo that is stored when `body` is created with the id `id` at time
/// `now`: the title and content of `body`, not yet completed, created and
/// last updated at `now`.
pub open spec fn created(body: TodoView, id: Seq<char>, now: Timestamp) -> TodoView {
    TodoView {
        id: Some(id),
        title: body.title,
        content: body.content,
        completed: Some(false),
        createdAt: Some(now),
        updatedAt: Some(now),
    }
}

/// The todos of `s` whose id is not `id`, in their order.
pub open spec fn without_id(s: Seq<TodoView>, id: Seq<char>) -> Seq<TodoView> {
    s.filter(|t: TodoView| t.id != Some(id))
}

/// Up to `limit` todos of `s`, starting at the position `offset`. Nothing
/// when `offset` does not lie inside `s`.
pub open spec fn window(s: Seq<TodoView>, offset: int, limit: int) -> Seq<TodoView> {
    if 0 <= offset < s.len() && 0 <= limit {
        s.subrange(
            offset,
            if offset + limit <= s.len() {
                offset + limit
            } else {
                s.len() as int
            },
        )
    } else {
        Seq::empty()
    }
}

/// No two todos of `s` share a title that is not empty.
pub open spec fn titles_distinct(s: Seq<TodoView>) -> bool {
    forall|i: int, j: int|
        #![trigger s[i], s[j]]
        0 <= i < j < s.len() && s[i].title == s[j].title ==> s[i].title.len() == 0
}

/// Every todo of `s` holds what the service assigns when it stores one: an
/// id, a completion flag and both times.
pub open spec fn all_assigned(s: Seq<TodoView>) -> bool {
    forall|i: int|
        #![trigger s[i]]
        0 <= i < s.len() ==> s[i].id is Some && s[i].completed is Some && s[i].createdAt is Some
            && s[i].updatedAt is Some
}

/// The invariant of the store.
pub open spec fn well_formed(s: Seq<TodoView>) -> bool {
    titles_distinct(s) && all_assigned(s)
}

/// Whether `id` is the id of `todo`.
fn id_is(todo: &Todo, id: &String) -> (r: bool)
    ensures
        r == (todo@.id == Some(id@)),
{
    match &todo.id {
        Some(own) => *own == *id,
        None => false,
    }
}

/// The text that an edit leaves in a field.
fn edit_text(stored: &String, supplied: &Option<String>) -> (r: String)
    ensures
        r@ == edited_text(stored@, text_view(*supplied)),
{
    let candidate = match supplied {
        Some(t) => t.clone(),
        None => stored.clone(),
    };
    if candidate.as_str().is_empty() {
        candidate
    } else {
        stored.clone()
    }
}

/// Taking one todo out of a well-formed sequence leaves it well formed.
proof fn lemma_remove_keeps_well_formed(s: Seq<TodoView>, i: int)
    requires
        well_formed(s),
        0 <= i < s.len(),
    ensures
        well_formed(s.remove(i)),
{
    let r = s.remove(i);
    assert forall|a: int, b: int|
        #![trigger r[a], r[b]]
        0 <= a < b < r.len() && r[a].title == r[b].title implies r[a].title.len() == 0 by {
        let a0 = if a < i { a } else { a + 1 };
        let b0 = if b < i { b } else { b + 1 };
        assert(r[a] == s[a0] && r[b] == s[b0]);
    }
    assert forall|a: int| #![trigger r[a]] 0 <= a < r.len() implies r[a].id is Some
        && r[a].completed is Some && r[a].createdAt is Some && r[a].updatedAt is Some by {
        let a0 = if a < i { a } else { a + 1 };
        assert(r[a] == s[a0]);
    }
}

impl AppState {
    /// The position of the first todo with the id `id`.
    pub fn position(&self, id: &String) -> (r: Option<usize>)
        ensures
            match r {
                Some(k) => is_first_with_id(self@, id@, k as int),
                None => !has_id(self@, id@),
            },
    {
        let n = self.todoDB.len();
        let mut i: usize = 0;
        while i < n
            invariant
                n == self.todoDB@.len(),
                i <= n,
                forall|j: int| #![trigger self@[j]] 0 <= j < i ==> self@[j].id != Some(id@),
            decreases n - i,
        {
            if id_is(&self.todoDB[i], id) {
                return Some(i);
            }
            i += 1;
        }
        None
    }

    /// Whether some stored todo has exactly the title `title`.
    pub fn title_taken(&self, title: &String) -> (r: bool)
        ensures
            r == has_title(self@, title@),
    {
        let n = self.todoDB.len();
        let mut i: usize = 0;
        while i < n
            invariant
                n == self.todoDB@.len(),
                i <= n,
                forall|j: int| #![trigger self@[j]] 0 <= j < i ==> self@[j].title != title@,
            decreases n - i,
        {
            if self.todoDB[i].title == *title {
                assert(self@[i as int].title == title@);
                return true;
            }
            i += 1;
        }
        false
    }

    /// Up to `limit` todos starting at the position `offset`, in the order
    /// in which they are stored: see [`window`].
    pub fn list(&self, offset: usize, limit: usize) -> (r: Vec<Todo>)
        ensures
            todo_views(r@) == window(self@, offset as int, limit as int),
            r@.len() == window(self@, offset as int, limit as int).len(),
    {
        let n = self.todoDB.len();
        let mut out: Vec<Todo> = Vec::new();
        if offset >= n {
            assert(todo_views(out@) =~= window(self@, offset as int, limit as int));
            return out;
        }
        let end = if limit <= n - offset {
            offset + limit
        } else {
            n
        };
        let mut i: usize = offset;
        while i < end
            invariant
                n == self.todoDB@.len(),
                offset <= i <= end <= n,
                todo_views(out@) == self@.subrange(offset as int, i as int),
            decreases end - i,
        {
            let ghost listed = out@;
            out.push(self.todoDB[i].clone());
            proof {
                assert(todo_views(out@) =~= todo_views(listed).push(self@[i as int]));
                assert(todo_views(out@) =~= self@.subrange(offset as int, i + 1));
            }
            i += 1;
        }
        out
    }

    /// Stores a new todo with the title and content of `todo`, the id `id`
    /// and both times set to `now`, and gives back a copy of it, unless a
    /// stored todo has the same title already. The other fields of `todo`
    /// are not read.
    pub fn insert(&mut self, todo: Todo, id: String, now: Timestamp) -> (r: Result<
        Todo,
        StoreError,
    >)
        ensures
            r is Err <==> has_title(old(self)@, todo@.title),
            r is Err ==> r == Err::<Todo, StoreError>(StoreError::Conflict) && final(self)@ == old(
                self,
            )@,
            r is Ok ==> r.unwrap()@ == created(todo@, id@, now) && final(self)@ == old(self)@.push(
                created(todo@, id@, now),
            ),
            well_formed(old(self)@) ==> well_formed(final(self)@),
    {
        if self.title_taken(&todo.title) {
            return Err(StoreError::Conflict);
        }
        let stored = Todo {
            id: Some(id),
            title: todo.title,
            content: todo.content,
            completed: Some(false),
            createdAt: Some(now),
            updatedAt: Some(now),
        };
        let copy = stored.clone();
        self.todoDB.push(stored);
        assert(self@ =~= old(self)@.push(copy@));
        Ok(copy)
    }

    /// A copy of the first todo with the id `id`.
    pub fn find(&self, id: &String) -> (r: Result<Todo, StoreError>)
        ensures
            r is Ok <==> has_id(self@, id@),
            r is Err ==> r == Err::<Todo, StoreError>(StoreError::NotFound),
            forall|k: int| #[trigger]
                is_first_with_id(self@, id@, k) ==> r is Ok && r.unwrap()@ == self@[k],
    {
        match self.position(id) {
            Some(k) => Ok(self.todoDB[k].clone()),
            None => Err(StoreError::NotFound),
        }
    }

    /// Edits the first todo with the id `id`: see [`edited`]. `now` becomes
    /// its time of last update; its id and time of creation stay. A text
    /// that `patch` supplies never replaces the stored one: see
    /// [`edited_text`].
    pub fn update(&mut self, id: &String, patch: &UpdateTodoSchema, now: Timestamp) -> (r: Result<
        Todo,
        StoreError,
    >)
        ensures
            r is Ok <==> has_id(old(self)@, id@),
            r is Err ==> r == Err::<Todo, StoreError>(StoreError::NotFound) && final(self)@ == old(
                self,
            )@,
            forall|k: int| #[trigger]
                is_first_with_id(old(self)@, id@, k) ==> r is Ok && r.unwrap()@ == edited(
                    old(self)@[k],
                    patch@,
                    now,
                ) && final(self)@ == old(self)@.update(k, edited(old(self)@[k], patch@, now)),
            well_formed(old(self)@) ==> well_formed(final(self)@),
    {
        match self.position(id) {
            None => Err(StoreError::NotFound),
            Some(k) => {
                let stored = &self.todoDB[k];
                let payload = Todo {
                    id: clone_text(&stored.id),
                    title: edit_text(&stored.title, &patch.title),
                    content: edit_text(&stored.content, &patch.content),
                    completed: if patch.completed.is_some() {
                        patch.completed
                    } else {
                        stored.completed
                    },
                    createdAt: stored.createdAt,
                    updatedAt: Some(now),
                };
                let copy = payload.clone();
                self.todoDB.set(k, payload);
                proof {
                    assert(self@ =~= old(self)@.update(k as int, copy@));
                }
                Ok(copy)
            },
        }
    }

    /// Removes every todo with the id `id`; the others keep their order.
    pub fn delete(&mut self, id: &String) -> (r: Result<(), StoreError>)
        ensures
            r is Ok <==> has_id(old(self)@, id@),
            r is Err ==> r == Err::<(), StoreError>(StoreError::NotFound) && final(self)@ == old(
                self,
            )@,
            r is Ok ==> final(self)@ == without_id(old(self)@, id@),
            well_formed(old(self)@) ==> well_formed(final(self)@),
    {
        if self.position(id).is_none() {
            return Err(StoreError::NotFound);
        }
        let ghost before = self@;
        let ghost keep = |t: TodoView| t.id != Some(id@);
        // The todos before `i` are those of the first `k` of `before` that
        // stay; the todos from `i` on are those of `before` from `k` on.
        let ghost mut k: int = 0;
        let mut i: usize = 0;
        proof {
            reveal(Seq::filter);
            assert(before.subrange(0, 0).filter(keep) =~= self@.subrange(0, 0));
        }
        while i < self.todoDB.len()
            invariant
                i <= self.todoDB@.len(),
                i <= k <= before.len(),
                self@.len() - i == before.len() - k,
                keep == |t: TodoView| t.id != Some(id@),
                self@.subrange(0, i as int) == before.subrange(0, k).filter(keep),
                forall|j: int|
                    #![trigger self@[j]]
                    i <= j < self@.len() ==> self@[j] == before[j + k - i],
                well_formed(before) ==> well_formed(self@),
            decreases before.len() - k,
        {
            let ghost current = self@;
            proof {
                assert(current[i as int] == before[k]);
                before.subrange(0, k).lemma_filter_push(before[k], keep);
                assert(before.subrange(0, k).push(before[k]) =~= before.subrange(0, k + 1));
            }
            if id_is(&self.todoDB[i], id) {
                self.todoDB.remove(i);
                proof {
                    assert(self@ =~= current.remove(i as int));
                    assert(self@.subrange(0, i as int) =~= current.subrange(0, i as int));
                    assert forall|j: int| #![trigger self@[j]] i <= j < self@.len() implies self@[j]
                        == before[j + (k + 1) - i] by {
                        assert(self@[j] == current[j + 1]);
                    }
                    if well_formed(before) {
                        lemma_remove_keeps_well_formed(current, i as int);
                    }
                    k = k + 1;
                }
            } else {
                proof {
                    assert(self@.subrange(0, i + 1) =~= current.subrange(0, i as int).push(
                        current[i as int],
                    ));
                    k = k + 1;
                }
                i += 1;
            }
        }
        proof {
            assert(self@.subrange(0, i as int) =~= self@);
            assert(before.subrange(0, k) =~= before);
        }
        Ok(())
    }
}

} // verus!
