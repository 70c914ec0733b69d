//! JSON documents, held as `serde_json::Value` and read and built through
//! `serde_json`.
//!
//! A `Value` is opaque here. `document` names what a value holds, as a
//! `JsonDoc`; every function below is taken to do to that document what
//! `serde_json` documents of the call it makes.

use vstd::prelude::*;

verus! {

/// A JSON document. A number is an `Integer` where `serde_json` holds it
/// as an integer: it is written without fraction or exponent, `u64` or
/// `i64` can hold it, and it is not `-0`. Every other number is a `Real`,
/// kept by its JSON text: `1` is an `Integer`, `1.0` and `-0` are `Real`.
/// The members of an object stand in the order in which they were
/// inserted, each key once; of a key that a text names twice, the last
/// value stays.
pub enum JsonDoc {
    Null,
    Bool(bool),
    Integer(int),
    Real(Seq<char>),
    Text(Seq<char>),
    Array(Seq<JsonDoc>),
    Object(Seq<(Seq<char>, JsonDoc)>),
}

/// The value of the first member named `key` among `members`.
pub open spec fn member_named(members: Seq<(Seq<char>, JsonDoc)>, key: Seq<char>) -> Option<
    JsonDoc,
>
    decreases members.len(),
{
    if members.len() == 0 {
        None
    } else if members[0].0 == key {
        Some(members[0].1)
    } else {
        member_named(members.drop_first(), key)
    }
}

/// Whether no two of `members` have the same key.
pub open spec fn distinct_keys(members: Seq<(Seq<char>, JsonDoc)>) -> bool {
    forall|i: int, j: int|
        0 <= i < j < members.len() ==> (#[trigger] members[i]).0 != (#[trigger] members[j]).0
}

impl JsonDoc {
    /// The member `key` of an object; `None` where the document is no
    /// object or has no such member.
    pub open spec fn member(self, key: Seq<char>) -> Option<JsonDoc> {
        match self {
            JsonDoc::Object(members) => member_named(members, key),
            _ => None,
        }
    }

    /// The string that the document is, if it is one.
    pub open spec fn as_text(self) -> Option<Seq<char>> {
        match self {
            JsonDoc::Text(text) => Some(text),
            _ => None,
        }
    }

    /// The number that the document is, if it is an `Integer` in the range
    /// of `u64`.
    pub open spec fn as_unsigned(self) -> Option<u64> {
        match self {
            JsonDoc::Integer(number) if 0 <= number <= u64::MAX => Some(number as u64),
            _ => None,
        }
    }
}

/// `serde_json::Value`, carried through as it is.
#[verifier::external_type_specification]
#[verifier::external_body]
pub struct ExValue(serde_json::Value);

/// `serde_json::Error`, carried through as it is.
#[verifier::external_type_specification]
#[verifier::external_body]
pub struct ExJsonError(serde_json::Error);

/// What a `serde_json::Value` holds.
pub uninterp spec fn document(value: serde_json::Value) -> JsonDoc;

/// The document that `serde_json::from_str` reads from a text; `None` for
/// a text that it rejects.
pub uninterp spec fn parsed_document(text: Seq<char>) -> Option<JsonDoc>;

/// The text that `serde_json::to_string` writes for a document.
pub uninterp spec fn printed_document(doc: JsonDoc) -> Seq<char>;

/// The documents that a list of values holds, in order.
pub open spec fn documents(values: Seq<serde_json::Value>) -> Seq<JsonDoc> {
    Seq::new(values.len(), |i: int| document(values[i]))
}

/// The members that a list of keys and values stands for, in order.
pub open spec fn members_of(entries: Seq<(String, serde_json::Value)>) -> Seq<
    (Seq<char>, JsonDoc),
> {
    Seq::new(entries.len(), |i: int| (entries[i].0@, document(entries[i].1)))
}

/// `serde_json::from_str` into a `Value`: the value holds the document
/// that the text parses to, and an error comes exactly for a text that
/// `serde_json` rejects.
#[verifier::external_body]
pub(crate) fn parse(text: &str) -> (parsed: Result<serde_json::Value, serde_json::Error>)
    ensures
        match parsed {
            Ok(value) => parsed_document(text@) == Some(document(value)),
            Err(_) => parsed_document(text@) is None,
        },
{
    serde_json::from_str::<serde_json::Value>(text)
}

/// `serde_json::to_string` of a `Value`: it succeeds, and the text is the
/// one that `serde_json` writes for the document that the value holds.
/// Writing fails only where a value refuses to be serialised or a map has
/// a key that is no string; a `Value` does neither.
#[verifier::external_body]
pub(crate) fn print(value: &serde_json::Value) -> (printed: Result<String, serde_json::Error>)
    ensures
        printed is Ok,
        printed matches Ok(text) ==> text@ == printed_document(document(*value)),
{
    serde_json::to_string(value)
}

/// `Value::get` with a string index: the member of that name where the
/// value is an object that has one, and `None` otherwise.
#[verifier::external_body]
pub(crate) fn member<'a>(value: &'a serde_json::Value, key: &str) -> (found: Option<
    &'a serde_json::Value,
>)
    ensures
        match found {
            Some(inner) => document(*value).member(key@) == Some(document(*inner)),
            None => document(*value).member(key@) is None,
        },
{
    value.get(key)
}

/// `Value::as_str`: the string where the value is one, and `None`
/// otherwise.
#[verifier::external_body]
pub(crate) fn as_text<'a>(value: &'a serde_json::Value) -> (text: Option<&'a str>)
    ensures
        match text {
            Some(text) => document(*value).as_text() == Some(text@),
            None => document(*value).as_text() is None,
        },
{
    value.as_str()
}

/// `Value::as_u64`: the number where the value is an integer in the range
/// of `u64`, and `None` otherwise.
#[verifier::external_body]
pub(crate) fn as_unsigned(value: &serde_json::Value) -> (number: Option<u64>)
    ensures
        number == document(*value).as_unsigned(),
{
    value.as_u64()
}

/// `Value::from` of a `bool`.
#[verifier::external_body]
pub(crate) fn bool_value(flag: bool) -> (value: serde_json::Value)
    ensures
        document(value) == JsonDoc::Bool(flag),
{
    serde_json::Value::from(flag)
}

/// `Value::from` of a `u64`: the number itself.
#[verifier::external_body]
pub(crate) fn unsigned_value(number: u64) -> (value: serde_json::Value)
    ensures
        document(value) == JsonDoc::Integer(number as int),
{
    serde_json::Value::from(number)
}

/// `Value::from` of an `i64`: the number itself.
#[verifier::external_body]
pub(crate) fn signed_value(number: i64) -> (value: serde_json::Value)
    ensures
        document(value) == JsonDoc::Integer(number as int),
{
    serde_json::Value::from(number)
}

/// `Value::from` of a `&str`: the string itself.
#[verifier::external_body]
pub(crate) fn text_value(text: &str) -> (value: serde_json::Value)
    ensures
        document(value) == JsonDoc::Text(text@),
{
    serde_json::Value::from(text)
}

/// `Value::from` of a `Vec<Value>`: the array of the items, in order.
#[verifier::external_body]
pub(crate) fn array_value(items: Vec<serde_json::Value>) -> (value: serde_json::Value)
    ensures
        document(value) == JsonDoc::Array(documents(items@)),
{
    serde_json::Value::from(items)
}

/// A `Value::Object` collected from keys and values: with no key twice,
/// the object's members are the entries, in order. The order is kept
/// because `serde_json` is built with `preserve_order`.
#[verifier::external_body]
pub(crate) fn object_value(entries: Vec<(String, serde_json::Value)>) -> (value:
    serde_json::Value)
    requires
        distinct_keys(members_of(entries@)),
    ensures
        document(value) == JsonDoc::Object(members_of(entries@)),
{
    serde_json::Value::Object(entries.into_iter().collect())
}

} // verus!
