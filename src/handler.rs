//! The decisions of the six request handlers. Each takes what the collection
//! answered as plain values and says what to write back or to reply.
use crate::ids::{decode_hex, is_id_text, lemma_hex_round_trip, TodoId};
use crate::model::{NewTodo, QueryOptions, Timestamp, Todo, TodoUpdate, UpdateTodoSchema};
use crate::response::{
    is_message, is_single, message_reply, single_reply, Body, Reply, STATUS_BAD_REQUEST,
    STATUS_CONFLICT, STATUS_NOT_FOUND, STATUS_NO_CONTENT, STATUS_OK,
};
use vstd::prelude::*;

verus! {

/// The page asked for; the first when absent.
pub open spec fn page_of(opts: QueryOptions) -> int {
    match opts.page {
        Some(p) => p as int,
        None => 1,
    }
}

/// The page size asked for; ten when absent.
pub open spec fn limit_of(opts: QueryOptions) -> int {
    match opts.limit {
        Some(l) => l as int,
        None => 10,
    }
}

/// The items of `s` from position `offset` on, at most `limit` of them.
pub open spec fn window<A>(s: Seq<A>, offset: int, limit: int) -> Seq<A> {
    let start = if offset < s.len() {
        offset
    } else {
        s.len() as int
    };
    let end = if start + limit < s.len() {
        start + limit
    } else {
        s.len() as int
    };
    s.subrange(start, end)
}

/// The page of `all` that `opts` selects.
pub open spec fn page_window(all: Seq<Todo>, opts: QueryOptions) -> Seq<Todo> {
    window(all, (page_of(opts) - 1) * limit_of(opts), limit_of(opts))
}

pub open spec fn conflict_message(title: Seq<char>) -> Seq<char> {
    "Todo with title: '"@ + title + "' already exists"@
}

pub open spec fn not_found_message(id: Seq<char>) -> Seq<char> {
    "Todo with ID: "@ + id + " not found"@
}

pub open spec fn invalid_id_message(id: Seq<char>) -> Seq<char> {
    "Invalid todo ID: "@ + id
}

/// The text of an optional string, empty when absent.
pub open spec fn text_or_empty(s: Option<String>) -> Seq<char> {
    match s {
        Some(s) => s@,
        None => Seq::empty(),
    }
}

/// `t` is the todo that a create of `body` makes, under `id` at time `now`.
pub open spec fn is_created(t: Todo, body: NewTodo, id: TodoId, now: Timestamp) -> bool {
    &&& t.id@ == id.key()
    &&& t.title == body.title
    &&& t.content@ == text_or_empty(body.content)
    &&& !t.completed
    &&& t.created_at == now
    &&& t.updated_at == now
}

/// The decision of a create request of `body`, given whether its title is
/// taken: a conflict, or the todo to store under `id`, made at `now`.
pub open spec fn create_outcome(
    body: NewTodo,
    title_taken: bool,
    id: TodoId,
    now: Timestamp,
    r: Result<Todo, Reply>,
) -> bool {
    if title_taken {
        r matches Err(reply) && is_message(
            reply,
            STATUS_CONFLICT,
            "fail"@,
            conflict_message(body.title@),
        )
    } else {
        r matches Ok(t) && is_created(t, body, id, now)
    }
}

/// `u` is what an edit with `body` at time `now` writes: each field given,
/// and the empty value for each field left out.
pub open spec fn is_update_of(u: TodoUpdate, body: UpdateTodoSchema, now: Timestamp) -> bool {
    &&& u.title@ == text_or_empty(body.title)
    &&& u.content@ == text_or_empty(body.content)
    &&& u.completed == (body.completed == Some(true))
    &&& u.updated_at == now
}

/// The reply of a read of `id`, given the todo that the collection found.
pub open spec fn get_outcome(id: Seq<char>, found: Option<Todo>, r: Reply) -> bool {
    match found {
        Some(t) => is_single(r, STATUS_OK, t),
        None => is_message(r, STATUS_NOT_FOUND, "fail"@, not_found_message(id)),
    }
}

/// The reply of an edit of `id`, given how many todos the update matched
/// (`None` when it failed) and what a read of it then found.
pub open spec fn edit_outcome(
    id: Seq<char>,
    matched: Option<u64>,
    found: Option<Todo>,
    r: Reply,
) -> bool {
    if matched == Some(1u64) && found.is_some() {
        is_single(r, STATUS_OK, found.unwrap())
    } else {
        is_message(r, STATUS_NOT_FOUND, "fail"@, not_found_message(id))
    }
}

/// The reply of a delete of `id`, given how many todos it removed (`None`
/// when it failed).
pub open spec fn delete_outcome(id: Seq<char>, deleted: Option<u64>, r: Reply) -> bool {
    if deleted == Some(1u64) {
        r.code == STATUS_NO_CONTENT && r.body is Empty
    } else {
        is_message(r, STATUS_NOT_FOUND, "fail"@, not_found_message(id))
    }
}

fn not_found_reply(id: &str) -> (r: Reply)
    ensures
        is_message(r, STATUS_NOT_FOUND, "fail"@, not_found_message(id@)),
{
    let mut message = String::from_str("Todo with ID: ");
    message.append(id);
    message.append(" not found");
    message_reply(STATUS_NOT_FOUND, "fail", message)
}

/// The reply to a health check.
pub fn health_checker_handler() -> (r: Reply)
    ensures
        is_message(r, STATUS_OK, "success"@, "Build Simple CRUD API with Rust"@),
{
    message_reply(STATUS_OK, "success", String::from_str("Build Simple CRUD API with Rust"))
}

/// The reply to a list request, given every todo of the collection in its
/// natural order: the page that `opts` selects, and its size.
pub fn todos_list_handler(opts: QueryOptions, all: Vec<Todo>) -> (r: Reply)
    requires
        opts.page != Some(0usize),
    ensures
        r.code == STATUS_OK,
        r.body matches Body::List { status, results, todos } && status@ == "success"@
            && todos@ == page_window(all@, opts) && results == todos@.len(),
{
    let page: usize = match opts.page {
        Some(p) => p,
        None => 1,
    };
    let limit: usize = match opts.limit {
        Some(l) => l,
        None => 10,
    };
    let len = all.len();
    let todos: Vec<Todo> = match (page - 1).checked_mul(limit) {
        Some(offset) if offset < len => {
            let mut rest = all;
            let mut tail = rest.split_off(offset);
            tail.truncate(limit);
            assert(tail@ =~= page_window(all@, opts));
            tail
        },
        _ => {
            proof {
                if page - 1 > 0 && limit > 0 {
                    assert((page - 1) * limit >= limit) by (nonlinear_arith)
                        requires
                            page - 1 >= 1,
                            limit > 0,
                    ;
                }
            }
            assert(page_window(all@, opts) =~= Seq::<Todo>::empty());
            Vec::new()
        },
    };
    let results = todos.len();
    Reply {
        code: STATUS_OK,
        body: Body::List { status: String::from_str("success"), results, todos },
    }
}

/// The decision of a create request at time `now`, given whether a todo with
/// the same title already exists: a conflict, or the todo to store under `id`.
pub fn create_todo_with(body: NewTodo, title_taken: bool, id: TodoId, now: Timestamp) -> (r: Result<
    Todo,
    Reply,
>)
    ensures
        create_outcome(body, title_taken, id, now, r),
{
    if title_taken {
        let mut message = String::from_str("Todo with title: '");
        message.append(body.title.as_str());
        message.append("' already exists");
        return Err(message_reply(STATUS_CONFLICT, "fail", message));
    }
    let content = match body.content {
        Some(c) => c,
        None => String::new(),
    };
    Ok(
        Todo {
            id: id.to_hex(),
            title: body.title,
            content,
            completed: false,
            created_at: now,
            updated_at: now,
        },
    )
}

/// The decision of a create request, given whether a todo with the same
/// title already exists: a conflict, or the todo to store, under a fresh
/// identifier and stamped with the current time.
pub fn create_todo_handler(body: NewTodo, title_taken: bool) -> (r: Result<Todo, Reply>)
    ensures
        title_taken ==> (r matches Err(reply) && is_message(
            reply,
            STATUS_CONFLICT,
            "fail"@,
            conflict_message(body.title@),
        )),
        !title_taken ==> (r matches Ok(t) && is_id_text(t.id@) && t.wf() && t.title == body.title
            && t.content@ == text_or_empty(body.content) && !t.completed && t.created_at
            == t.updated_at),
{
    let id = TodoId::fresh();
    let now = Timestamp::now();
    proof {
        lemma_hex_round_trip(id.bytes@);
    }
    create_todo_with(body, title_taken, id, now)
}

/// Reads the identifier of a request path: a bad-request reply unless it is
/// twenty-four hex digits.
pub fn parse_todo_id(id: &str) -> (r: Result<TodoId, Reply>)
    ensures
        is_id_text(id@) ==> (r matches Ok(t) && t.bytes@ == decode_hex(id@)),
        !is_id_text(id@) ==> (r matches Err(reply) && is_message(
            reply,
            STATUS_BAD_REQUEST,
            "fail"@,
            invalid_id_message(id@),
        )),
{
    match TodoId::parse(id) {
        Some(t) => Ok(t),
        None => {
            let mut message = String::from_str("Invalid todo ID: ");
            message.append(id);
            Err(message_reply(STATUS_BAD_REQUEST, "fail", message))
        },
    }
}

/// The reply to a read of `id`, given what the collection found under it.
pub fn get_todo_handler(id: &str, found: Option<Todo>) -> (r: Reply)
    ensures
        get_outcome(id@, found, r),
{
    match found {
        Some(t) => single_reply(STATUS_OK, t),
        None => not_found_reply(id),
    }
}

/// The fields that an edit with `body` at time `now` writes.
pub fn todo_update_at(body: UpdateTodoSchema, now: Timestamp) -> (r: TodoUpdate)
    ensures
        is_update_of(r, body, now),
{
    let title = match body.title {
        Some(t) => t,
        None => String::new(),
    };
    let content = match body.content {
        Some(c) => c,
        None => String::new(),
    };
    let completed = match body.completed {
        Some(c) => c,
        None => false,
    };
    TodoUpdate { title, content, completed, updated_at: now }
}

/// The fields that an edit with `body` writes, stamped with the current time.
pub fn todo_update(body: UpdateTodoSchema) -> (r: TodoUpdate)
    ensures
        is_update_of(r, body, r.updated_at),
{
    todo_update_at(body, Timestamp::now())
}

/// The reply to an edit of `id`, given how many todos the update matched and
/// what a read under `id` then found.
pub fn edit_todo_handler(id: &str, matched: Option<u64>, found: Option<Todo>) -> (r: Reply)
    ensures
        edit_outcome(id@, matched, found, r),
{
    match (matched, found) {
        (Some(1u64), Some(t)) => single_reply(STATUS_OK, t),
        _ => not_found_reply(id),
    }
}

/// The reply to a delete of `id`, given how many todos it removed.
pub fn delete_todo_handler(id: &str, deleted: Option<u64>) -> (r: Reply)
    ensures
        delete_outcome(id@, deleted, r),
{
    match deleted {
        Some(1u64) => Reply { code: STATUS_NO_CONTENT, body: Body::Empty },
        _ => not_found_reply(id),
    }
}

} // verus!
