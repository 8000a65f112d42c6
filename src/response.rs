//! The replies that the handlers produce: a status code and a body.
use crate::model::Todo;
use vstd::prelude::*;

verus! {

pub const STATUS_OK: u16 = 200;

pub const STATUS_CREATED: u16 = 201;

pub const STATUS_NO_CONTENT: u16 = 204;

pub const STATUS_BAD_REQUEST: u16 = 400;

pub const STATUS_NOT_FOUND: u16 = 404;

pub const STATUS_CONFLICT: u16 = 409;

/// The body of a reply.
#[derive(Debug)]
pub enum Body {
    /// `{status, message}`
    Message { status: String, message: String },
    /// `{status, data: {todo}}`
    Single { status: String, todo: Todo },
    /// `{status, results, todos}`
    List { status: String, results: usize, todos: Vec<Todo> },
    /// No body at all.
    Empty,
}

/// A status code with its body.
#[derive(Debug)]
pub struct Reply {
    pub code: u16,
    pub body: Body,
}

/// `r` has the given code and a message body with the given texts.
pub open spec fn is_message(r: Reply, code: u16, status: Seq<char>, message: Seq<char>) -> bool {
    &&& r.code == code
    &&& r.body matches Body::Message { status: s, message: m } && s@ == status && m@ == message
}

/// `r` has the given code and carries exactly `t`, with a success status.
pub open spec fn is_single(r: Reply, code: u16, t: Todo) -> bool {
    &&& r.code == code
    &&& r.body matches Body::Single { status: s, todo } && s@ == "success"@ && todo == t
}

/// A reply whose body is a message.
pub fn message_reply(code: u16, status: &str, message: String) -> (r: Reply)
    ensures
        is_message(r, code, status@, message@),
{
    Reply { code, body: Body::Message { status: String::from_str(status), message } }
}

/// A success reply that carries one todo.
pub fn single_reply(code: u16, todo: Todo) -> (r: Reply)
    ensures
        is_single(r, code, todo),
{
    Reply { code, body: Body::Single { status: String::from_str("success"), todo } }
}

} // verus!
