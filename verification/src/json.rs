//! JSON documents. `serde_json` reads, holds and writes them; this module
//! says what a `serde_json::Value` holds as a mathematical tree and states
//! each operation on values over that tree.

use vstd::prelude::*;

verus! {

/// A JSON document.
pub enum Doc {
    Null,
    Bool(bool),
    /// A number written as a non-negative integer below 2^64.
    Natural(u64),
    /// A number written as a negative integer from -2^63.
    Negative(i64),
    /// Any other number, by the bits of its double-precision value.
    Real(u64),
    Text(Seq<char>),
    Array(Seq<Doc>),
    Object(Map<Seq<char>, Doc>),
}

/// Declares `serde_json::Value`, whose inside this library never reads: all
/// that is known of a value is the document it holds.
#[verifier::external_type_specification]
#[verifier::external_body]
pub struct ExValue(serde_json::Value);

/// The document that a value holds.
pub uninterp spec fn value_doc(value: serde_json::Value) -> Doc;

/// The document that a text is read as, if `serde_json` accepts the text.
pub uninterp spec fn parsed_json(text: Seq<char>) -> Option<Doc>;

/// The compact text that `serde_json` writes for a document.
pub uninterp spec fn rendered_json(doc: Doc) -> Seq<char>;

/// The documents of a sequence of values.
pub open spec fn value_docs(values: Seq<serde_json::Value>) -> Seq<Doc> {
    Seq::new(values.len(), |i: int| value_doc(values[i]))
}

/// The member of an object under a key, if the document is an object that
/// has one.
pub open spec fn member_of(doc: Doc, key: Seq<char>) -> Option<Doc> {
    match doc {
        Doc::Object(members) => if members.contains_key(key) {
            Some(members[key])
        } else {
            None
        },
        _ => None,
    }
}

/// Calls `serde_json::from_str` for a `Value`. The value holds the document
/// that the text is read as; `None` stands for every error.
#[verifier::external_body]
pub(crate) fn parse_json(text: &str) -> (value: Option<serde_json::Value>)
    ensures
        match value {
            Some(v) => parsed_json(text@) == Some(value_doc(v)),
            None => parsed_json(text@).is_none(),
        },
{
    match serde_json::from_str::<serde_json::Value>(text) {
        Ok(value) => Some(value),
        Err(_) => None,
    }
}

/// Formats through `serde_json::Value`'s `Display`, which writes the
/// compact form of the document.
#[verifier::external_body]
pub(crate) fn render_json(value: &serde_json::Value) -> (text: String)
    ensures
        text@ == rendered_json(value_doc(*value)),
{
    value.to_string()
}

/// Calls `serde_json::Value::as_str`: the text of a string value, `None`
/// for any other value.
#[verifier::external_body]
pub(crate) fn text_of<'a>(value: &'a serde_json::Value) -> (text: Option<&'a str>)
    ensures
        match text {
            Some(t) => value_doc(*value) == Doc::Text(t@),
            None => !(value_doc(*value) is Text),
        },
{
    value.as_str()
}

/// Calls `serde_json::Value::as_u64`: the number of a value that holds a
/// non-negative integer, `None` for any other value.
#[verifier::external_body]
pub(crate) fn natural_of(value: &serde_json::Value) -> (number: Option<u64>)
    ensures
        match number {
            Some(n) => value_doc(*value) == Doc::Natural(n),
            None => !(value_doc(*value) is Natural),
        },
{
    value.as_u64()
}

/// Calls `serde_json::Value::as_array`: the items of an array value, `None`
/// for any other value.
#[verifier::external_body]
pub(crate) fn items_of<'a>(value: &'a serde_json::Value) -> (items: Option<
    &'a Vec<serde_json::Value>,
>)
    ensures
        match items {
            Some(list) => value_doc(*value) == Doc::Array(value_docs(list@)),
            None => !(value_doc(*value) is Array),
        },
{
    value.as_array()
}

/// Calls `serde_json::Value::get` with a text key: the member of an object
/// under that key, `None` where the value is no object or has no such
/// member.
#[verifier::external_body]
pub(crate) fn member<'a>(value: &'a serde_json::Value, key: &str) -> (found: Option<
    &'a serde_json::Value,
>)
    ensures
        match found {
            Some(m) => member_of(value_doc(*value), key@) == Some(value_doc(*m)),
            None => member_of(value_doc(*value), key@).is_none(),
        },
{
    value.get(key)
}

/// Calls `serde_json::Value::as_object` and `serde_json::Map::len`: the
/// number of members of an object, which is finite, `None` for any other
/// value.
#[verifier::external_body]
pub(crate) fn member_count(value: &serde_json::Value) -> (count: Option<usize>)
    ensures
        match count {
            Some(n) => value_doc(*value) is Object && value_doc(*value)->Object_0.dom().finite()
                && value_doc(*value)->Object_0.dom().len() == n,
            None => !(value_doc(*value) is Object),
        },
{
    match value.as_object() {
        Some(members) => Some(members.len()),
        None => None,
    }
}

/// Builds a `serde_json::Value::String`.
#[verifier::external_body]
pub(crate) fn text_value(text: String) -> (value: serde_json::Value)
    ensures
        value_doc(value) == Doc::Text(text@),
{
    serde_json::Value::String(text)
}

/// Calls `serde_json::Value::from` on a `u64`.
#[verifier::external_body]
pub(crate) fn natural_value(number: u64) -> (value: serde_json::Value)
    ensures
        value_doc(value) == Doc::Natural(number),
{
    serde_json::Value::from(number)
}

/// Builds a `serde_json::Value::Array` of the items, in their order.
#[verifier::external_body]
pub(crate) fn array_value(items: Vec<serde_json::Value>) -> (value: serde_json::Value)
    ensures
        value_doc(value) == Doc::Array(value_docs(items@)),
{
    serde_json::Value::Array(items)
}

/// Builds a `serde_json::Value::Object` around `serde_json::Map::new`: an
/// object without members.
#[verifier::external_body]
pub(crate) fn empty_object() -> (value: serde_json::Value)
    ensures
        value_doc(value) == Doc::Object(Map::empty()),
{
    serde_json::Value::Object(serde_json::Map::new())
}

/// Calls `serde_json::Map::insert` on the members of an object: the member
/// stands under the key afterwards, in place of an earlier one, and the
/// other members stay.
#[verifier::external_body]
pub(crate) fn set_member(object: &mut serde_json::Value, key: &str, member: serde_json::Value)
    requires
        value_doc(*old(object)) is Object,
    ensures
        value_doc(*final(object)) == Doc::Object(
            value_doc(*old(object))->Object_0.insert(key@, value_doc(member)),
        ),
{
    if let Some(members) = object.as_object_mut() {
        members.insert(key.to_string(), member);
    }
}

} // verus!
