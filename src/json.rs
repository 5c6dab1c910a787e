//! The JSON documents that the API answers with, as a tree of plain values,
//! and the lookups that the decoders make in them.

use vstd::prelude::*;

verus! {

/// A JSON number: its value as an `i64` when it is an integer that fits, and
/// its decimal text as the parser wrote it.
#[derive(Debug)]
pub struct JsonNumber {
    pub int: Option<i64>,
    pub text: String,
}

/// A JSON value. An object lists its members in order; a lookup reads the
/// first member of the name it looks for.
#[derive(Debug)]
pub enum Json {
    Null,
    Bool(bool),
    Number(JsonNumber),
    Str(String),
    Array(Vec<Json>),
    Object(Vec<(String, Json)>),
}

#[verifier::external_type_specification]
#[verifier::external_body]
pub struct ExJsonValue(serde_json::Value);

/// The tree that serde_json reads from a text, `None` where the text is no JSON document.
pub uninterp spec fn parsed_document(text: Seq<char>) -> Option<Json>;

/// Converts a serde_json value into the library's tree, variant for variant;
/// the conversion step of `parse_document`.
#[verifier::external_body]
fn tree_of(v: serde_json::Value) -> Json {
    match v {
        serde_json::Value::Null => Json::Null,
        serde_json::Value::Bool(b) => Json::Bool(b),
        serde_json::Value::Number(n) => Json::Number(JsonNumber { int: n.as_i64(), text: n.to_string() }),
        serde_json::Value::String(s) => Json::Str(s),
        serde_json::Value::Array(a) => Json::Array(a.into_iter().map(tree_of).collect()),
        serde_json::Value::Object(m) => Json::Object(m.into_iter().map(|(k, x)| (k, tree_of(x))).collect()),
    }
}

/// Relies on serde_json::from_str to parse a response body; what it reads
/// depends on the text alone. The error is serde_json's message.
#[verifier::external_body]
pub fn parse_document(text: &str) -> (r: Result<Json, String>)
    ensures
        match r {
            Ok(j) => parsed_document(text@) == Some(j),
            Err(_) => parsed_document(text@) is None,
        },
{
    match serde_json::from_str::<serde_json::Value>(text) {
        Ok(v) => Ok(tree_of(v)),
        Err(e) => Err(e.to_string()),
    }
}

/// The value of the first member named `key` of `es`, looking from position `i` on.
pub open spec fn entry_from(es: Seq<(String, Json)>, key: Seq<char>, i: int) -> Option<Json>
    decreases es.len() - i,
{
    if i < 0 || i >= es.len() {
        None
    } else if es[i].0@ == key {
        Some(es[i].1)
    } else {
        entry_from(es, key, i + 1)
    }
}

/// The member `key` of an object; `None` for a value that is no object or lacks it.
pub open spec fn member(j: Json, key: Seq<char>) -> Option<Json> {
    match j {
        Json::Object(es) => entry_from(es@, key, 0),
        _ => None,
    }
}

/// The member `key` of a value that may be absent.
pub open spec fn member_of(o: Option<Json>, key: Seq<char>) -> Option<Json> {
    match o {
        Some(j) => member(j, key),
        None => None,
    }
}

/// A value read as an integer: a number that is an integer and fits in `i64`.
pub open spec fn int_of(o: Option<Json>) -> Option<i64> {
    match o {
        Some(Json::Number(n)) => n.int,
        _ => None,
    }
}

/// A value read as a floating number: any number, as its decimal text.
pub open spec fn float_of(o: Option<Json>) -> Option<Seq<char>> {
    match o {
        Some(Json::Number(n)) => Some(n.text@),
        _ => None,
    }
}

/// A value read as a string.
pub open spec fn text_of(o: Option<Json>) -> Option<Seq<char>> {
    match o {
        Some(Json::Str(s)) => Some(s@),
        _ => None,
    }
}

/// A value kept only where it is an object.
pub open spec fn object_of(o: Option<Json>) -> Option<Json> {
    match o {
        Some(Json::Object(es)) => o,
        _ => None,
    }
}

/// The elements of a value that is an array.
pub open spec fn array_of(o: Option<Json>) -> Option<Seq<Json>> {
    match o {
        Some(Json::Array(v)) => Some(v@),
        _ => None,
    }
}

/// The first element of a value that is a non-empty array.
pub open spec fn first_of(o: Option<Json>) -> Option<Json> {
    match o {
        Some(Json::Array(v)) => if v@.len() > 0 {
            Some(v@[0])
        } else {
            None
        },
        _ => None,
    }
}

/// The text of an optional string, or `dflt` where it is absent.
pub open spec fn text_or(o: Option<Seq<char>>, dflt: Seq<char>) -> Seq<char> {
    match o {
        Some(t) => t,
        None => dflt,
    }
}

/// Whether a string holds the same characters as a text.
pub fn same_text(a: &String, b: &str) -> (r: bool)
    ensures
        r == (a@ == b@),
{
    let t = b.to_owned();
    *a == t
}

/// The member `key` of an object.
pub fn get<'a>(j: &'a Json, key: &str) -> (r: Option<&'a Json>)
    ensures
        opt_val(r) == member(*j, key@),
{
    match j {
        Json::Object(es) => {
            let mut i: usize = 0;
            while i < es.len()
                invariant
                    i <= es@.len(),
                    member(*j, key@) == entry_from(es@, key@, 0),
                    entry_from(es@, key@, 0) == entry_from(es@, key@, i as int),
                decreases es@.len() - i,
            {
                if same_text(&es[i].0, key) {
                    assert(entry_from(es@, key@, i as int) == Some(es@[i as int].1));
                    return Some(&es[i].1);
                }
                i = i + 1;
            }
            None
        },
        _ => None,
    }
}

/// The member `key` of an optional value.
pub fn get_in<'a>(o: Option<&'a Json>, key: &str) -> (r: Option<&'a Json>)
    ensures
        opt_val(r) == member_of(opt_val(o), key@),
{
    match o {
        Some(j) => get(j, key),
        None => None,
    }
}

/// An optional reference, read as an optional value.
pub open spec fn opt_val(o: Option<&Json>) -> Option<Json> {
    match o {
        Some(x) => Some(*x),
        None => None,
    }
}

/// An optional value read as an integer.
pub fn as_int(o: Option<&Json>) -> (r: Option<i64>)
    ensures
        r == int_of(opt_val(o)),
{
    match o {
        Some(Json::Number(n)) => n.int,
        _ => None,
    }
}

/// An optional value read as a floating number, as its decimal text.
pub fn as_float(o: Option<&Json>) -> (r: Option<String>)
    ensures
        match r {
            Some(t) => float_of(opt_val(o)) == Some(t@),
            None => float_of(opt_val(o)) is None,
        },
{
    match o {
        Some(Json::Number(n)) => Some(n.text.clone()),
        _ => None,
    }
}

/// An optional value read as a string.
pub fn as_text(o: Option<&Json>) -> (r: Option<String>)
    ensures
        match r {
            Some(t) => text_of(opt_val(o)) == Some(t@),
            None => text_of(opt_val(o)) is None,
        },
{
    match o {
        Some(Json::Str(s)) => Some(s.clone()),
        _ => None,
    }
}

/// An optional value read as a string, with a default where it is no string.
pub fn text_or_default(o: Option<&Json>, dflt: &str) -> (r: String)
    ensures
        r@ == text_or(text_of(opt_val(o)), dflt@),
{
    match as_text(o) {
        Some(t) => t,
        None => dflt.to_owned(),
    }
}

/// An optional value kept only where it is an object.
pub fn as_object<'a>(o: Option<&'a Json>) -> (r: Option<&'a Json>)
    ensures
        opt_val(r) == object_of(opt_val(o)),
{
    match o {
        Some(j) => match j {
            Json::Object(_) => Some(j),
            _ => None,
        },
        None => None,
    }
}

/// The elements of an optional value that is an array.
pub fn as_array<'a>(o: Option<&'a Json>) -> (r: Option<&'a Vec<Json>>)
    ensures
        match r {
            Some(v) => array_of(opt_val(o)) == Some(v@),
            None => array_of(opt_val(o)) is None,
        },
{
    match o {
        Some(Json::Array(v)) => Some(v),
        _ => None,
    }
}

} // verus!
