//! A model of the todo collection as the handlers see it: its contents in
//! natural order, and what each query the handlers make answers or changes.
//! The laws of the service are stated and proved over it.
use crate::handler::{create_outcome, edit_outcome, get_outcome, is_update_of, not_found_message};
use crate::ids::{decode_hex, is_id_text, lemma_hex_round_trip, TodoId};
use crate::model::{NewTodo, Timestamp, Todo, TodoUpdate, UpdateTodoSchema};
use crate::response::{is_message, is_single, Reply, STATUS_CONFLICT, STATUS_NOT_FOUND, STATUS_OK};
use vstd::prelude::*;

verus! {

/// Some todo of `s` has this title.
pub open spec fn title_taken(s: Seq<Todo>, title: Seq<char>) -> bool {
    exists|i: int| 0 <= i < s.len() && (#[trigger] s[i]).title@ == title
}

/// No two todos of `s` share an identifier.
pub open spec fn ids_unique(s: Seq<Todo>) -> bool {
    forall|i: int, j: int| 0 <= i < j < s.len() ==> (#[trigger] s[i]).id@ != (#[trigger] s[j]).id@
}

/// No two todos of `s` share a title.
pub open spec fn titles_unique(s: Seq<Todo>) -> bool {
    forall|i: int, j: int|
        0 <= i < j < s.len() ==> (#[trigger] s[i]).title@ != (#[trigger] s[j]).title@
}

/// What the collection satisfies: identifiers and titles are unique, and
/// each todo is well formed.
pub open spec fn store_wf(s: Seq<Todo>) -> bool {
    &&& ids_unique(s)
    &&& titles_unique(s)
    &&& forall|i: int| 0 <= i < s.len() ==> (#[trigger] s[i]).wf()
}

/// The first todo of `s` stored under `key`.
pub open spec fn find_by_key(s: Seq<Todo>, key: Seq<char>) -> Option<Todo>
    decreases s.len(),
{
    if s.len() == 0 {
        None
    } else if s[0].id@ == key {
        Some(s[0])
    } else {
        find_by_key(s.drop_first(), key)
    }
}

/// How many todos a single-document update or delete under `key` matches.
pub open spec fn match_count(s: Seq<Todo>, key: Seq<char>) -> u64 {
    if find_by_key(s, key).is_some() {
        1
    } else {
        0
    }
}

/// `s` with its first todo under `key` removed.
pub open spec fn delete_by_key(s: Seq<Todo>, key: Seq<char>) -> Seq<Todo>
    decreases s.len(),
{
    if s.len() == 0 {
        s
    } else if s[0].id@ == key {
        s.drop_first()
    } else {
        seq![s[0]] + delete_by_key(s.drop_first(), key)
    }
}

/// `s` with `u` written over its first todo under `key`.
pub open spec fn update_by_key(s: Seq<Todo>, key: Seq<char>, u: TodoUpdate) -> Seq<Todo>
    decreases s.len(),
{
    if s.len() == 0 {
        s
    } else if s[0].id@ == key {
        seq![u.apply(s[0])] + s.drop_first()
    } else {
        seq![s[0]] + update_by_key(s.drop_first(), key, u)
    }
}

/// The collection after a create decision: the new todo stored, or nothing.
pub open spec fn after_create(s: Seq<Todo>, r: Result<Todo, Reply>) -> Seq<Todo> {
    match r {
        Ok(t) => s.push(t),
        Err(_) => s,
    }
}

proof fn lemma_find_none(s: Seq<Todo>, key: Seq<char>)
    requires
        forall|i: int| 0 <= i < s.len() ==> (#[trigger] s[i]).id@ != key,
    ensures
        find_by_key(s, key).is_none(),
    decreases s.len(),
{
    if s.len() > 0 {
        assert forall|i: int| 0 <= i < s.drop_first().len() implies (
        #[trigger] s.drop_first()[i]).id@ != key by {
            assert(s.drop_first()[i] == s[i + 1]);
        }
        lemma_find_none(s.drop_first(), key);
    }
}

proof fn lemma_find_none_absent(s: Seq<Todo>, key: Seq<char>)
    requires
        find_by_key(s, key).is_none(),
    ensures
        forall|i: int| 0 <= i < s.len() ==> (#[trigger] s[i]).id@ != key,
    decreases s.len(),
{
    if s.len() > 0 {
        lemma_find_none_absent(s.drop_first(), key);
        assert forall|i: int| 0 <= i < s.len() implies (#[trigger] s[i]).id@ != key by {
            if i > 0 {
                assert(s[i] == s.drop_first()[i - 1]);
            }
        }
    }
}

proof fn lemma_find_after_push(s: Seq<Todo>, t: Todo)
    requires
        find_by_key(s, t.id@).is_none(),
    ensures
        find_by_key(s.push(t), t.id@) == Some(t),
    decreases s.len(),
{
    if s.len() == 0 {
        assert(s.push(t)[0] == t);
    } else {
        assert(s.push(t).drop_first() =~= s.drop_first().push(t));
        lemma_find_after_push(s.drop_first(), t);
    }
}

proof fn lemma_find_after_update(s: Seq<Todo>, key: Seq<char>, u: TodoUpdate)
    requires
        find_by_key(s, key).is_some(),
    ensures
        find_by_key(update_by_key(s, key, u), key) == Some(u.apply(find_by_key(s, key).unwrap())),
    decreases s.len(),
{
    let r = update_by_key(s, key, u);
    if s[0].id@ == key {
        assert(r[0] == u.apply(s[0]));
    } else {
        assert(r[0] == s[0]);
        assert(r.drop_first() =~= update_by_key(s.drop_first(), key, u));
        lemma_find_after_update(s.drop_first(), key, u);
    }
}

proof fn lemma_find_after_delete(s: Seq<Todo>, key: Seq<char>)
    requires
        ids_unique(s),
    ensures
        find_by_key(delete_by_key(s, key), key).is_none(),
    decreases s.len(),
{
    if s.len() > 0 {
        let rest = s.drop_first();
        assert(ids_unique(rest)) by {
            assert forall|i: int, j: int| 0 <= i < j < rest.len() implies (#[trigger] rest[i]).id@
                != (#[trigger] rest[j]).id@ by {
                assert(rest[i] == s[i + 1] && rest[j] == s[j + 1]);
            }
        }
        if s[0].id@ == key {
            assert forall|i: int| 0 <= i < rest.len() implies (#[trigger] rest[i]).id@ != key by {
                assert(rest[i] == s[i + 1]);
            }
            lemma_find_none(rest, key);
        } else {
            let r = delete_by_key(s, key);
            assert(r.drop_first() =~= delete_by_key(rest, key));
            lemma_find_after_delete(rest, key);
        }
    }
}

/// A create whose title is not yet taken succeeds: the todo it stores has an
/// identifier, is not completed, was last updated when it was created, and
/// is then in the collection.
pub proof fn lemma_create_new_title(
    s: Seq<Todo>,
    body: NewTodo,
    id: TodoId,
    now: Timestamp,
    r: Result<Todo, Reply>,
)
    requires
        !title_taken(s, body.title@),
        create_outcome(body, title_taken(s, body.title@), id, now, r),
    ensures
        r matches Ok(t) && t.id@.len() > 0 && t.created_at == t.updated_at && !t.completed
            && after_create(s, r) == s.push(t) && title_taken(after_create(s, r), body.title@),
{
    let t = r.unwrap();
    assert(after_create(s, r)[s.len() as int] == t);
}

/// A create whose title is taken is a conflict and leaves the collection as
/// it was.
pub proof fn lemma_create_taken_title(
    s: Seq<Todo>,
    body: NewTodo,
    id: TodoId,
    now: Timestamp,
    r: Result<Todo, Reply>,
)
    requires
        title_taken(s, body.title@),
        create_outcome(body, title_taken(s, body.title@), id, now, r),
    ensures
        r matches Err(reply) && reply.code == STATUS_CONFLICT,
        after_create(s, r) == s,
{
}

/// A create keeps the collection well formed, when the identifier it is
/// given is new to the collection.
pub proof fn lemma_create_keeps_store_wf(
    s: Seq<Todo>,
    body: NewTodo,
    id: TodoId,
    now: Timestamp,
    r: Result<Todo, Reply>,
)
    requires
        store_wf(s),
        find_by_key(s, id.key()).is_none(),
        create_outcome(body, title_taken(s, body.title@), id, now, r),
    ensures
        store_wf(after_create(s, r)),
{
    if !title_taken(s, body.title@) {
        let t = r.unwrap();
        let n = after_create(s, r);
        lemma_find_none_absent(s, id.key());
        assert forall|i: int| 0 <= i < s.len() implies #[trigger] n[i] == s[i] by {}
        assert(n[s.len() as int] == t);
        assert forall|i: int, j: int| 0 <= i < j < n.len() implies (#[trigger] n[i]).id@
            != (#[trigger] n[j]).id@ && n[i].title@ != n[j].title@ by {
            if j == s.len() {
                assert(n[i] == s[i]);
            } else {
                assert(n[i] == s[i] && n[j] == s[j]);
            }
        }
    }
}

/// A read of a created todo, by the identifier it was given, finds it and
/// replies with it unchanged (the identifier being new to the collection).
pub proof fn lemma_get_after_create(
    s: Seq<Todo>,
    body: NewTodo,
    id: TodoId,
    now: Timestamp,
    created: Result<Todo, Reply>,
    parsed: TodoId,
    r: Reply,
)
    requires
        find_by_key(s, id.key()).is_none(),
        create_outcome(body, false, id, now, created),
        parsed.bytes@ == decode_hex(created.unwrap().id@),
        get_outcome(created.unwrap().id@, find_by_key(after_create(s, created), parsed.key()), r),
    ensures
        is_id_text(created.unwrap().id@),
        is_single(r, STATUS_OK, created.unwrap()),
{
    let t = created.unwrap();
    lemma_hex_round_trip(id.bytes@);
    assert(parsed.bytes@ == id.bytes@);
    lemma_find_after_push(s, t);
}

/// An edit that marks an existing todo completed replies with it completed,
/// under the same identifier and creation time, and updated later than
/// before (the clock having moved on since).
pub proof fn lemma_edit_completes(
    s: Seq<Todo>,
    id: Seq<char>,
    key: Seq<char>,
    body: UpdateTodoSchema,
    now: Timestamp,
    u: TodoUpdate,
    r: Reply,
)
    requires
        find_by_key(s, key).is_some(),
        body.completed == Some(true),
        is_update_of(u, body, now),
        now.micros > find_by_key(s, key).unwrap().updated_at.micros,
        edit_outcome(id, Some(match_count(s, key)), find_by_key(update_by_key(s, key, u), key), r),
    ensures
        r.code == STATUS_OK,
        r.body matches crate::response::Body::Single { todo, .. } && todo.completed
            && todo.id == find_by_key(s, key).unwrap().id && todo.created_at == find_by_key(
            s,
            key,
        ).unwrap().created_at && todo.updated_at.micros > find_by_key(
            s,
            key,
        ).unwrap().updated_at.micros,
{
    lemma_find_after_update(s, key, u);
}

/// After a delete of a todo, a read under its identifier finds nothing.
pub proof fn lemma_get_after_delete(s: Seq<Todo>, id: Seq<char>, key: Seq<char>, r: Reply)
    requires
        ids_unique(s),
        get_outcome(id, find_by_key(delete_by_key(s, key), key), r),
    ensures
        is_message(r, STATUS_NOT_FOUND, "fail"@, not_found_message(id)),
{
    lemma_find_after_delete(s, key);
}

} // verus!
