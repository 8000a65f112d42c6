use todo_api::handler::{
    create_todo_handler, create_todo_with, delete_todo_handler, edit_todo_handler,
    get_todo_handler, health_checker_handler, parse_todo_id, todo_update, todo_update_at,
    todos_list_handler,
};
use todo_api::ids::TodoId;
use todo_api::model::{NewTodo, QueryOptions, Timestamp, Todo, UpdateTodoSchema};
use todo_api::response::{Body, Reply};

fn todo(id: &str, title: &str) -> Todo {
    Todo {
        id: id.to_string(),
        title: title.to_string(),
        content: String::new(),
        completed: false,
        created_at: Timestamp { micros: 10 },
        updated_at: Timestamp { micros: 10 },
    }
}

fn five_todos() -> Vec<Todo> {
    (0..5).map(|i| todo(&format!("00000000000000000000000{}", i), &format!("t{}", i))).collect()
}

fn list_titles(r: &Reply) -> (usize, Vec<String>) {
    assert_eq!(r.code, 200);
    match &r.body {
        Body::List { status, results, todos } => {
            assert_eq!(status, "success");
            (*results, todos.iter().map(|t| t.title.clone()).collect())
        }
        other => panic!("unexpected body {:?}", other),
    }
}

fn message_of(r: &Reply) -> (String, String) {
    match &r.body {
        Body::Message { status, message } => (status.clone(), message.clone()),
        other => panic!("unexpected body {:?}", other),
    }
}

fn single_of(r: Reply) -> Todo {
    match r.body {
        Body::Single { status, todo } => {
            assert_eq!(status, "success");
            todo
        }
        other => panic!("unexpected body {:?}", other),
    }
}

fn same(a: &Todo, b: &Todo) -> bool {
    a.id == b.id
        && a.title == b.title
        && a.content == b.content
        && a.completed == b.completed
        && a.created_at == b.created_at
        && a.updated_at == b.updated_at
}

#[test]
fn health_check_replies_success() {
    let r = health_checker_handler();
    assert_eq!(r.code, 200);
    assert_eq!(
        message_of(&r),
        ("success".to_string(), "Build Simple CRUD API with Rust".to_string())
    );
}

#[test]
fn list_first_page_of_two_over_five() {
    let opts = QueryOptions { page: Some(1), limit: Some(2) };
    let (n, titles) = list_titles(&todos_list_handler(opts, five_todos()));
    assert_eq!(n, 2);
    assert_eq!(titles, vec!["t0", "t1"]);
}

#[test]
fn list_third_page_of_two_over_five() {
    let opts = QueryOptions { page: Some(3), limit: Some(2) };
    let (n, titles) = list_titles(&todos_list_handler(opts, five_todos()));
    assert_eq!(n, 1);
    assert_eq!(titles, vec!["t4"]);
}

#[test]
fn list_defaults_to_first_ten() {
    let all: Vec<Todo> = (0..12).map(|i| todo("x", &format!("t{}", i))).collect();
    let opts = QueryOptions { page: None, limit: None };
    let (n, titles) = list_titles(&todos_list_handler(opts, all));
    assert_eq!(n, 10);
    assert_eq!(titles[9], "t9");
}

#[test]
fn list_page_past_the_end_is_empty() {
    let opts = QueryOptions { page: Some(4), limit: Some(2) };
    assert_eq!(list_titles(&todos_list_handler(opts, five_todos())).0, 0);
    let opts = QueryOptions { page: Some(usize::MAX), limit: Some(usize::MAX) };
    assert_eq!(list_titles(&todos_list_handler(opts, five_todos())).0, 0);
}

#[test]
fn list_of_empty_collection() {
    let opts = QueryOptions { page: Some(1), limit: Some(10) };
    assert_eq!(list_titles(&todos_list_handler(opts, Vec::new())), (0, vec![]));
}

#[test]
fn create_with_new_title_succeeds() {
    let body = NewTodo { title: "A".to_string(), content: None };
    let t = create_todo_handler(body, false).unwrap();
    assert_eq!(t.id.len(), 24);
    assert!(t.id.chars().all(|c| c.is_ascii_digit() || ('a'..='f').contains(&c)));
    assert_eq!(t.title, "A");
    assert_eq!(t.content, "");
    assert!(!t.completed);
    assert_eq!(t.created_at, t.updated_at);
    assert!(t.created_at.micros > 0);
}

#[test]
fn create_with_taken_title_conflicts() {
    let body = NewTodo { title: "A".to_string(), content: Some("x".to_string()) };
    let r = create_todo_handler(body, true).unwrap_err();
    assert_eq!(r.code, 409);
    assert_eq!(
        message_of(&r),
        ("fail".to_string(), "Todo with title: 'A' already exists".to_string())
    );
}

#[test]
fn create_with_given_id_and_time() {
    let id = TodoId { bytes: [0, 1, 2, 3, 4, 5, 6, 7, 8, 9, 0xab, 0xff] };
    let now = Timestamp { micros: 1_700_000_000_000_000 };
    let body = NewTodo { title: "T".to_string(), content: Some("c".to_string()) };
    let t = create_todo_with(body, false, id, now).unwrap();
    assert_eq!(t.id, "00010203040506070809abff");
    assert_eq!(t.content, "c");
    assert_eq!(t.created_at, now);
    assert_eq!(t.updated_at, now);
}

#[test]
fn fresh_ids_differ() {
    let a = TodoId::fresh().to_hex();
    let b = TodoId::fresh().to_hex();
    assert_eq!(a.len(), 24);
    assert_ne!(a, b);
}

#[test]
fn parse_accepts_hex_of_either_case() {
    let id = parse_todo_id("00010203040506070809ABff").unwrap();
    assert_eq!(id.bytes, [0, 1, 2, 3, 4, 5, 6, 7, 8, 9, 0xab, 0xff]);
    assert_eq!(id.to_hex(), "00010203040506070809abff");
}

#[test]
fn parse_rejects_malformed_ids() {
    for bad in ["", "123", "00010203040506070809abfg", "00010203040506070809abff00"] {
        let r = parse_todo_id(bad).unwrap_err();
        assert_eq!(r.code, 400);
        assert_eq!(message_of(&r), ("fail".to_string(), format!("Invalid todo ID: {}", bad)));
    }
    assert!(TodoId::parse("zz").is_none());
}

#[test]
fn get_found_and_not_found() {
    let t = todo("00010203040506070809abff", "A");
    let r = get_todo_handler("00010203040506070809abff", Some(t));
    assert_eq!(r.code, 200);
    assert_eq!(single_of(r).title, "A");
    let r = get_todo_handler("00010203040506070809abff", None);
    assert_eq!(r.code, 404);
    assert_eq!(
        message_of(&r),
        ("fail".to_string(), "Todo with ID: 00010203040506070809abff not found".to_string())
    );
}

#[test]
fn edit_clears_omitted_fields() {
    let body = UpdateTodoSchema { title: None, content: None, completed: Some(true) };
    let u = todo_update_at(body, Timestamp { micros: 99 });
    assert_eq!(u.title, "");
    assert_eq!(u.content, "");
    assert!(u.completed);
    assert_eq!(u.updated_at, Timestamp { micros: 99 });
    let u = todo_update(UpdateTodoSchema {
        title: Some("B".to_string()),
        content: Some("c".to_string()),
        completed: None,
    });
    assert_eq!(u.title, "B");
    assert_eq!(u.content, "c");
    assert!(!u.completed);
    assert!(u.updated_at.micros > 0);
}

#[test]
fn edit_replies() {
    let id = "00010203040506070809abff";
    let r = edit_todo_handler(id, Some(1), Some(todo(id, "B")));
    assert_eq!(r.code, 200);
    assert_eq!(single_of(r).title, "B");
    for (matched, found) in [(Some(0), None), (None, None), (Some(1), None), (Some(2), Some(todo(id, "B")))] {
        let r = edit_todo_handler(id, matched, found);
        assert_eq!(r.code, 404);
        assert_eq!(message_of(&r).1, format!("Todo with ID: {} not found", id));
    }
}

#[test]
fn delete_replies() {
    let r = delete_todo_handler("abc", Some(1));
    assert_eq!(r.code, 204);
    assert!(matches!(r.body, Body::Empty));
    for deleted in [Some(0), None] {
        let r = delete_todo_handler("abc", deleted);
        assert_eq!(r.code, 404);
        assert_eq!(message_of(&r).1, "Todo with ID: abc not found");
    }
}

#[test]
fn crud_scenario() {
    // The collection, held here as a vector.
    let mut store: Vec<Todo> = Vec::new();

    let taken = store.iter().any(|t| t.title == "A");
    let created = create_todo_handler(NewTodo { title: "A".to_string(), content: None }, taken).unwrap();
    store.push(created.duplicate());
    let r = todo_api::response::single_reply(201, created.duplicate());
    assert_eq!(r.code, 201);

    let taken = store.iter().any(|t| t.title == "A");
    let r = create_todo_handler(NewTodo { title: "A".to_string(), content: None }, taken).unwrap_err();
    assert_eq!(r.code, 409);
    assert_eq!(store.len(), 1);

    let id = created.id.clone();
    let key = parse_todo_id(&id).unwrap().to_hex();
    let found = store.iter().find(|t| t.id == key).map(|t| t.duplicate());
    let r = get_todo_handler(&id, found);
    assert_eq!(r.code, 200);
    assert!(same(&single_of(r), &created));

    let before = created.updated_at;
    let u = todo_update_at(
        UpdateTodoSchema { title: Some("B".to_string()), content: None, completed: None },
        Timestamp { micros: before.micros + 1 },
    );
    let pos = store.iter().position(|t| t.id == key).unwrap();
    store[pos].title = u.title.clone();
    store[pos].content = u.content.clone();
    store[pos].completed = u.completed;
    store[pos].updated_at = u.updated_at;
    let r = edit_todo_handler(&id, Some(1), Some(store[pos].duplicate()));
    assert_eq!(r.code, 200);
    let edited = single_of(r);
    assert_eq!(edited.title, "B");
    assert_eq!(edited.content, "");
    assert_eq!(edited.id, created.id);
    assert_eq!(edited.created_at, created.created_at);
    assert!(edited.updated_at.micros > before.micros);

    let before_len = store.len();
    store.retain(|t| t.id != key);
    let r = delete_todo_handler(&id, Some((before_len - store.len()) as u64));
    assert_eq!(r.code, 204);

    let found = store.iter().find(|t| t.id == key).map(|t| t.duplicate());
    let r = get_todo_handler(&id, found);
    assert_eq!(r.code, 404);
}

#[test]
fn edit_marks_completed_and_moves_update_time() {
    let id = "00010203040506070809abff";
    let mut stored = todo(id, "A");
    let u = todo_update_at(
        UpdateTodoSchema { title: Some("A".to_string()), content: None, completed: Some(true) },
        Timestamp { micros: 11 },
    );
    stored.title = u.title;
    stored.content = u.content;
    stored.completed = u.completed;
    stored.updated_at = u.updated_at;
    let edited = single_of(edit_todo_handler(id, Some(1), Some(stored)));
    assert!(edited.completed);
    assert_eq!(edited.id, id);
    assert_eq!(edited.created_at, Timestamp { micros: 10 });
    assert!(edited.updated_at.micros > 10);
}
