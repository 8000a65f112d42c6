//! Todo identifiers: twelve bytes, written as twenty-four hex digits.
use mongodb::bson::oid::ObjectId;
use vstd::prelude::*;

verus! {

/// An ASCII hex digit, in either case.
pub open spec fn is_hex_digit(c: char) -> bool {
    ('0' <= c && c <= '9') || ('a' <= c && c <= 'f') || ('A' <= c && c <= 'F')
}

/// The value of a hex digit.
pub open spec fn hex_value(c: char) -> int {
    if '0' <= c && c <= '9' {
        c as int - '0' as int
    } else if 'a' <= c && c <= 'f' {
        c as int - 'a' as int + 10
    } else {
        c as int - 'A' as int + 10
    }
}

/// The lowercase hex digit for a value below sixteen.
pub open spec fn hex_digit(v: int) -> char {
    seq!['0', '1', '2', '3', '4', '5', '6', '7', '8', '9', 'a', 'b', 'c', 'd', 'e', 'f'][v]
}

/// A well-formed identifier text: exactly twenty-four hex digits.
pub open spec fn is_id_text(s: Seq<char>) -> bool {
    s.len() == 24 && forall|i: int| 0 <= i < s.len() ==> is_hex_digit(#[trigger] s[i])
}

/// The bytes that a text of hex digits stands for, two digits per byte.
pub open spec fn decode_hex(s: Seq<char>) -> Seq<u8> {
    Seq::new(s.len() / 2, |i: int| (hex_value(s[2 * i]) * 16 + hex_value(s[2 * i + 1])) as u8)
}

/// The lowercase hex text of some bytes, two digits per byte.
pub open spec fn encode_hex(b: Seq<u8>) -> Seq<char> {
    Seq::new(
        2 * b.len(),
        |i: int|
            if i % 2 == 0 {
                hex_digit(b[i / 2] as int / 16)
            } else {
                hex_digit(b[i / 2] as int % 16)
            },
    )
}

proof fn lemma_hex_digit(d: int)
    requires
        0 <= d < 16,
    ensures
        is_hex_digit(hex_digit(d)),
        hex_value(hex_digit(d)) == d,
{
}

/// The text of an identifier is well formed and reads back as the same bytes.
pub proof fn lemma_hex_round_trip(b: Seq<u8>)
    requires
        b.len() == 12,
    ensures
        is_id_text(encode_hex(b)),
        decode_hex(encode_hex(b)) == b,
{
    let s = encode_hex(b);
    assert forall|i: int| 0 <= i < s.len() implies is_hex_digit(#[trigger] s[i]) by {
        lemma_hex_digit(b[i / 2] as int / 16);
        lemma_hex_digit(b[i / 2] as int % 16);
    }
    assert forall|i: int| 0 <= i < 12 implies #[trigger] decode_hex(s)[i] == b[i] by {
        assert((2 * i) / 2 == i && (2 * i + 1) / 2 == i);
        assert((2 * i) % 2 == 0 && (2 * i + 1) % 2 == 1);
        lemma_hex_digit(b[i] as int / 16);
        lemma_hex_digit(b[i] as int % 16);
    }
    assert(decode_hex(s) =~= b);
}

/// Relies on bson's `ObjectId::parse_str`, which decodes its text with
/// `hex::decode` and accepts the result only when it is twelve bytes long.
#[verifier::external_body]
fn parse_object_id(s: &str) -> (r: Option<[u8; 12]>)
    ensures
        r.is_some() == is_id_text(s@),
        r matches Some(b) ==> b@ == decode_hex(s@),
{
    match ObjectId::parse_str(s) {
        Ok(oid) => Some(oid.bytes()),
        Err(_) => None,
    }
}

/// Relies on bson's `ObjectId::new`: a fresh identifier made of the clock,
/// a per-process random value and a counter. Nothing is promised of it.
#[verifier::external_body]
fn new_object_id() -> (r: [u8; 12]) {
    ObjectId::new().bytes()
}

/// Relies on bson's `ObjectId::to_hex`, which is `hex::encode` of the bytes:
/// two lowercase digits per byte.
#[verifier::external_body]
fn object_id_hex(b: [u8; 12]) -> (r: String)
    ensures
        r@ == encode_hex(b@),
{
    ObjectId::from_bytes(b).to_hex()
}

/// The identifier of a stored todo.
#[derive(Clone, Copy, Debug, PartialEq, Eq)]
pub struct TodoId {
    pub bytes: [u8; 12],
}

impl TodoId {
    /// The text under which a todo with this identifier is stored and found.
    pub open spec fn key(self) -> Seq<char> {
        encode_hex(self.bytes@)
    }

    /// Reads an identifier from its text; `None` unless the text is exactly
    /// twenty-four hex digits (of either case).
    pub fn parse(s: &str) -> (r: Option<TodoId>)
        ensures
            r.is_some() == is_id_text(s@),
            r matches Some(id) ==> id.bytes@ == decode_hex(s@),
    {
        match parse_object_id(s) {
            Some(bytes) => Some(TodoId { bytes }),
            None => None,
        }
    }

    /// A fresh identifier, as the database would assign it.
    pub fn fresh() -> (r: TodoId) {
        TodoId { bytes: new_object_id() }
    }

    /// The lowercase hex text of this identifier.
    pub fn to_hex(&self) -> (r: String)
        ensures
            r@ == self.key(),
            is_id_text(r@),
            decode_hex(r@) == self.bytes@,
    {
        proof {
            lemma_hex_round_trip(self.bytes@);
        }
        object_id_hex(self.bytes)
    }
}

} // verus!
