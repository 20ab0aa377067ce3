//! Laws that relate the operations of the store to one another.

use vstd::prelude::*;
use crate::model::{PatchView, Timestamp, TodoView};
use crate::store::{created, edited, has_id, has_title, is_first_with_id, well_formed, without_id};

verus! {

/// An id that occurs in `s` has a first position there.
pub proof fn law_first_position_exists(s: Seq<TodoView>, id: Seq<char>)
    requires
        has_id(s, id),
    ensures
        exists|k: int| is_first_with_id(s, id, k),
    decreases s.len(),
{
    let w = choose|i: int| #![trigger s[i]] 0 <= i < s.len() && s[i].id == Some(id);
    if exists|j: int| #![trigger s[j]] 0 <= j < w && s[j].id == Some(id) {
        let j = choose|j: int| #![trigger s[j]] 0 <= j < w && s[j].id == Some(id);
        let front = s.take(w);
        assert(front[j].id == Some(id));
        law_first_position_exists(front, id);
        let k = choose|k: int| is_first_with_id(front, id, k);
        assert(s[k] == front[k]);
        assert forall|i: int| #![trigger s[i]] 0 <= i < k implies s[i].id != Some(id) by {
            assert(s[i] == front[i]);
        }
        assert(is_first_with_id(s, id, k));
    } else {
        assert(is_first_with_id(s, id, w));
    }
}

/// An id has at most one first position.
pub proof fn law_first_position_unique(s: Seq<TodoView>, id: Seq<char>, k: int, m: int)
    requires
        is_first_with_id(s, id, k),
        is_first_with_id(s, id, m),
    ensures
        k == m,
{
    if k < m {
        assert(s[k].id != Some(id));
    }
    if m < k {
        assert(s[m].id != Some(id));
    }
}

/// The empty store is well formed.
pub proof fn law_empty_well_formed()
    ensures
        well_formed(Seq::<TodoView>::empty()),
{
}

/// After a todo is created under a title that was free and an id that no
/// stored todo has, a lookup by that id finds the new todo: it has the title
/// and content of the request, is not completed, and was created and last
/// updated at the same time.
pub proof fn law_get_after_create(s: Seq<TodoView>, body: TodoView, id: Seq<char>, now: Timestamp)
    requires
        !has_title(s, body.title),
        !has_id(s, id),
    ensures
        is_first_with_id(s.push(created(body, id, now)), id, s.len() as int),
        s.push(created(body, id, now))[s.len() as int].title == body.title,
        s.push(created(body, id, now))[s.len() as int].content == body.content,
        s.push(created(body, id, now))[s.len() as int].completed == Some(false),
        s.push(created(body, id, now))[s.len() as int].createdAt == s.push(
            created(body, id, now),
        )[s.len() as int].updatedAt,
{
    let after = s.push(created(body, id, now));
    assert forall|j: int| #![trigger after[j]] 0 <= j < s.len() implies after[j].id != Some(id) by {
        assert(after[j] == s[j]);
    }
}

/// The edit that supplies `completed = true` and nothing else.
pub open spec fn only_completed() -> PatchView {
    PatchView { title: None, content: None, completed: Some(true) }
}

/// An edit that supplies only `completed = true` keeps the title, the
/// content, the id and the time of creation, sets the flag, and makes `now`
/// the time of last update; where `now` lies after the former time of last
/// update, the new one lies after it as well.
pub proof fn law_edit_only_completed(stored: TodoView, now: Timestamp)
    ensures
        edited(stored, only_completed(), now).title == stored.title,
        edited(stored, only_completed(), now).content == stored.content,
        edited(stored, only_completed(), now).id == stored.id,
        edited(stored, only_completed(), now).createdAt == stored.createdAt,
        edited(stored, only_completed(), now).completed == Some(true),
        edited(stored, only_completed(), now).updatedAt == Some(now),
        stored.updatedAt is Some && now.is_after(stored.updatedAt.unwrap()) ==> edited(
            stored,
            only_completed(),
            now,
        ).updatedAt.unwrap().is_after(stored.updatedAt.unwrap()),
{
}

/// Once the todos with the id `id` are deleted, no stored todo has that id:
/// a lookup by it finds nothing, and neither does a second delete, which
/// leaves the store as it is.
pub proof fn law_gone_after_delete(s: Seq<TodoView>, id: Seq<char>)
    ensures
        !has_id(without_id(s, id), id),
        without_id(without_id(s, id), id) == without_id(s, id),
{
    let keep = |t: TodoView| t.id != Some(id);
    let left = s.filter(keep);
    assert forall|i: int| 0 <= i < left.len() implies keep(#[trigger] left[i]) by {
        s.lemma_filter_pred(keep, i);
    }
    lemma_filter_all(left, keep);
}

/// A filter that every element passes changes nothing.
proof fn lemma_filter_all(s: Seq<TodoView>, keep: spec_fn(TodoView) -> bool)
    requires
        forall|i: int| 0 <= i < s.len() ==> keep(#[trigger] s[i]),
    ensures
        s.filter(keep) == s,
    decreases s.len(),
{
    reveal(Seq::filter);
    if s.len() > 0 {
        let front = s.drop_last();
        assert forall|i: int| 0 <= i < front.len() implies keep(#[trigger] front[i]) by {
            assert(front[i] == s[i]);
        }
        lemma_filter_all(front, keep);
        assert(keep(s[s.len() - 1]));
        assert(front.push(s.last()) =~= s);
    }
}

/// A delete of an id that no stored todo has would remove nothing.
pub proof fn law_delete_absent(s: Seq<TodoView>, id: Seq<char>)
    requires
        !has_id(s, id),
    ensures
        without_id(s, id) == s,
{
    let keep = |t: TodoView| t.id != Some(id);
    assert forall|i: int| 0 <= i < s.len() implies keep(#[trigger] s[i]) by {
        assert(s[i].id != Some(id));
    }
    lemma_filter_all(s, keep);
}

} // verus!
