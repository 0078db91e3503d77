//! JSON documents: the values that tools take and that schemas are made of.
//!
//! The values themselves are `serde_json`'s. This module says what each of the few operations
//! that the library needs does to the document that a value holds; none of that is proved here.

use vstd::prelude::*;
use crate::model::views;

verus! {

/// `serde_json::Value`: a JSON value, carried as it is. What it holds is spoken of through
/// `document`.
#[verifier::external_type_specification]
#[verifier::external_body]
pub struct ExValue(serde_json::Value);

/// `serde_json::Map`: the members of a JSON object under construction. What it holds is spoken
/// of through `members`.
#[verifier::external_type_specification]
#[verifier::external_body]
#[verifier::reject_recursive_types(K)]
#[verifier::reject_recursive_types(V)]
pub struct ExJsonMap<K, V>(serde_json::Map<K, V>);

/// `serde_json::Error`: why bytes could not be read or a value not be written. Nothing is said
/// of what it holds.
#[verifier::external_type_specification]
#[verifier::external_body]
pub struct ExJsonError(serde_json::Error);

/// The shape of a JSON document.
pub enum Json {
    Null,
    Bool(bool),
    /// A number, by its digits.
    Number(Seq<char>),
    Text(Seq<char>),
    List(Seq<Json>),
    /// An object: a document under each member's name.
    Object(Map<Seq<char>, Json>),
}

/// The document that a value holds.
pub uninterp spec fn document(value: serde_json::Value) -> Json;

/// The members that an object under construction holds: a document under each name.
pub uninterp spec fn members(object: serde_json::Map<String, serde_json::Value>) -> Map<
    Seq<char>,
    Json,
>;

/// The document that `serde_json::from_slice` reads from a byte string, if it reads one.
pub uninterp spec fn parsed(bytes: Seq<u8>) -> Option<Json>;

/// The bytes that `serde_json::to_vec` writes for a value that holds the document, if it writes
/// any.
pub uninterp spec fn written(document: Json) -> Option<Seq<u8>>;

/// The documents that a sequence of values holds, in order.
pub open spec fn documents(values: Seq<serde_json::Value>) -> Seq<Json> {
    Seq::new(values.len(), |i: int| document(values[i]))
}

/// The object without members.
pub open spec fn empty_object() -> Json {
    Json::Object(Map::empty())
}

/// `serde_json::Value::String`: the result holds the JSON string with exactly the characters
/// of `s`.
#[verifier::external_body]
pub(crate) fn text(s: String) -> (value: serde_json::Value)
    ensures
        document(value) == Json::Text(s@),
{
    serde_json::Value::String(s)
}

/// `serde_json::Value::Array`: the result holds the list of the documents that the items hold,
/// in the order of the items.
#[verifier::external_body]
pub(crate) fn list(items: Vec<serde_json::Value>) -> (value: serde_json::Value)
    ensures
        document(value) == Json::List(documents(items@)),
{
    serde_json::Value::Array(items)
}

/// `serde_json::Value::Object`: the result holds the object with exactly the members of
/// `parts`.
#[verifier::external_body]
pub(crate) fn object(parts: serde_json::Map<String, serde_json::Value>) -> (value:
    serde_json::Value)
    ensures
        document(value) == Json::Object(members(parts)),
{
    serde_json::Value::Object(parts)
}

/// `serde_json::Map::new`: the result has no members.
#[verifier::external_body]
pub(crate) fn no_members() -> (object: serde_json::Map<String, serde_json::Value>)
    ensures
        (members(object) == Map::<Seq<char>, Json>::empty()),
{
    serde_json::Map::new()
}

/// `serde_json::Map::insert`: afterwards the object holds `value` under `name`, in place of
/// what it held under that name before, and every other member as before.
#[verifier::external_body]
pub(crate) fn put_member(
    object: &mut serde_json::Map<String, serde_json::Value>,
    name: String,
    value: serde_json::Value,
)
    ensures
        (members(*final(object)) == members(*old(object)).insert(name@, document(value))),
{
    object.insert(name, value);
}

/// `serde_json::from_slice`: what comes back depends on the bytes alone. On success the value
/// holds the document that `parsed` names for the bytes; an error comes exactly where `parsed`
/// names none.
#[verifier::external_body]
pub(crate) fn parse(bytes: &[u8]) -> (r: Result<serde_json::Value, serde_json::Error>)
    ensures
        (match r {
            Ok(value) => parsed(bytes@) == Some(document(value)),
            Err(_) => parsed(bytes@) is None,
        }),
{
    serde_json::from_slice(bytes)
}

/// `serde_json::to_vec`: what comes back depends on the value's document alone. On success the
/// bytes are those that `written` names for the document; an error comes exactly where
/// `written` names none.
#[verifier::external_body]
pub(crate) fn write(value: &serde_json::Value) -> (r: Result<Vec<u8>, serde_json::Error>)
    ensures
        (match r {
            Ok(bytes) => written(document(*value)) == Some(bytes@),
            Err(_) => written(document(*value)) is None,
        }),
{
    serde_json::to_vec(value)
}

/// The value that stands for the input of a call: the parsed value, or the object without
/// members where parsing failed.
pub fn input_or_empty(parsed: Result<serde_json::Value, serde_json::Error>) -> (value:
    serde_json::Value)
    ensures
        match parsed {
            Ok(input) => value == input,
            Err(_) => document(value) == empty_object(),
        },
{
    match parsed {
        Ok(input) => input,
        Err(_) => object(no_members()),
    }
}

/// The document that the bytes of an input stand for: the one they are read as, or the object
/// without members where they are not read as any.
pub open spec fn parsed_or_empty(bytes: Seq<u8>) -> Json {
    match parsed(bytes) {
        Some(input) => input,
        None => empty_object(),
    }
}

/// Decodes the input of a call. Bytes that are not JSON stand for the object without members.
pub fn decode_input(bytes: &[u8]) -> (value: serde_json::Value)
    ensures
        document(value) == parsed_or_empty(bytes@),
{
    input_or_empty(parse(bytes))
}

/// The bytes that stand for a written document: the bytes, or none where writing failed.
pub fn bytes_or_empty(written: Result<Vec<u8>, serde_json::Error>) -> (bytes: Vec<u8>)
    ensures
        match written {
            Ok(out) => bytes == out,
            Err(_) => bytes@ == Seq::<u8>::empty(),
        },
{
    match written {
        Ok(out) => out,
        Err(_) => Vec::new(),
    }
}

/// The bytes that a document goes out as: those it is written as, or none where it cannot be
/// written.
pub open spec fn written_or_empty(document: Json) -> Seq<u8> {
    match written(document) {
        Some(out) => out,
        None => Seq::empty(),
    }
}

/// Writes a value out as bytes. A value that cannot be written yields no bytes.
pub fn encode(value: &serde_json::Value) -> (bytes: Vec<u8>)
    ensures
        bytes@ == written_or_empty(document(*value)),
{
    bytes_or_empty(write(value))
}

/// The documents of a list of texts: a JSON string for each, in order.
pub open spec fn texts_of(items: Seq<Seq<char>>) -> Seq<Json> {
    Seq::new(items.len(), |i: int| Json::Text(items[i]))
}

/// The list of JSON strings with the given texts, in order.
pub fn list_of_texts(items: &Vec<String>) -> (value: serde_json::Value)
    ensures
        document(value) == Json::List(texts_of(views(items@))),
{
    let mut values: Vec<serde_json::Value> = Vec::new();
    let mut i: usize = 0;
    while i < items.len()
        invariant
            i <= items.len(),
            values.len() == i,
            forall|k: int| 0 <= k < i ==> document(values@[k]) == Json::Text(items@[k]@),
        decreases items.len() - i,
    {
        values.push(text(items[i].clone()));
        i += 1;
    }
    assert(documents(values@) =~= texts_of(views(items@)));
    list(values)
}

} // verus!
