//! JSON documents, read and written by `serde_json`.
//!
//! The crate holds a document as a `serde_json::Value` and reasons about it
//! through [`Json`], the tree that the value stands for. Nothing in this module
//! is proved: each function states what the `serde_json` function that it calls
//! does, and the rest of the crate is proved from these statements.

use vstd::prelude::*;

verus! {

/// A JSON document as a tree.
pub enum Json {
    /// The literal `null`.
    Null,
    /// The literals `true` and `false`.
    Bool(bool),
    /// A number that is a whole number from 0 to 2^64 - 1.
    Unsigned(u64),
    /// A number that is a whole number below 0.
    Negative(i64),
    /// Any other number, by the bits of the double that holds it.
    Fraction(u64),
    /// A string.
    Text(Seq<char>),
    /// An array.
    List(Seq<Json>),
    /// An object: its members by their names.
    Record(Map<Seq<char>, Json>),
}

impl Json {
    /// The member of an object that has the given name, if this document is
    /// an object with such a member.
    pub open spec fn member(self, name: Seq<char>) -> Option<Json> {
        match self {
            Json::Record(members) if members.contains_key(name) => Some(members[name]),
            _ => None,
        }
    }

    /// The string that this document is, if it is one.
    pub open spec fn text(self) -> Option<Seq<char>> {
        match self {
            Json::Text(text) => Some(text),
            _ => None,
        }
    }

    /// The elements of the array that this document is, if it is one.
    pub open spec fn items(self) -> Option<Seq<Json>> {
        match self {
            Json::List(items) => Some(items),
            _ => None,
        }
    }

    /// The whole number from 0 to 2^64 - 1 that this document is, if it is one.
    pub open spec fn unsigned(self) -> Option<u64> {
        match self {
            Json::Unsigned(number) => Some(number),
            _ => None,
        }
    }
}

/// A JSON document of `serde_json`.
#[verifier::external_type_specification]
#[verifier::external_body]
pub struct ExValue(serde_json::Value);

/// The error with which `serde_json` rejects a text.
#[verifier::external_type_specification]
#[verifier::external_body]
pub struct ExJsonError(serde_json::Error);

/// The tree that a `serde_json::Value` stands for.
pub uninterp spec fn json_model(value: serde_json::Value) -> Json;

/// The document that `serde_json::from_str` reads from a text, if it accepts
/// the text.
pub uninterp spec fn json_parsed(text: Seq<char>) -> Option<Json>;

/// The text that `serde_json` prints for a document, in its compact form.
pub uninterp spec fn json_rendered(document: Json) -> Seq<char>;

/// The trees that a sequence of values stands for.
pub open spec fn json_models(values: Seq<serde_json::Value>) -> Seq<Json> {
    Seq::new(values.len(), |i: int| json_model(values[i]))
}

/// The members that a sequence of named values makes, where the names differ.
pub open spec fn json_members(named: Seq<(String, serde_json::Value)>) -> Map<Seq<char>, Json> {
    Map::new(
        |name: Seq<char>| exists|i: int| 0 <= i < named.len() && #[trigger] named[i].0@ == name,
        |name: Seq<char>|
            json_model(named[choose|i: int| 0 <= i < named.len() && #[trigger] named[i].0@ == name].1),
    )
}

/// Calls `serde_json::from_str` for a `serde_json::Value`. The call reads the
/// text as one JSON document; whether it accepts the text, and the document
/// that it reads, depend on the text alone.
#[verifier::external_body]
pub(crate) fn parse(text: &str) -> (result: Result<serde_json::Value, serde_json::Error>)
    ensures
        result is Ok <==> json_parsed(text@) is Some,
        result matches Ok(value) ==> json_parsed(text@) == Some(json_model(value)),
{
    serde_json::from_str(text)
}

/// Calls `serde_json::Value::get` with a name. The call returns the member of
/// that name where the value is an object that has one, and nothing otherwise.
#[verifier::external_body]
pub(crate) fn member<'a>(value: &'a serde_json::Value, name: &str) -> (found: Option<
    &'a serde_json::Value,
>)
    ensures
        match found {
            Some(inner) => json_model(*value).member(name@) == Some(json_model(*inner)),
            None => json_model(*value).member(name@) is None,
        },
{
    value.get(name)
}

/// Calls `serde_json::Value::as_str`. The call returns the string where the
/// value is a string, and nothing otherwise.
#[verifier::external_body]
pub(crate) fn text<'a>(value: &'a serde_json::Value) -> (found: Option<&'a str>)
    ensures
        match found {
            Some(text) => json_model(*value).text() == Some(text@),
            None => json_model(*value).text() is None,
        },
{
    value.as_str()
}

/// Calls `serde_json::Value::as_array`. The call returns the elements where
/// the value is an array, and nothing otherwise.
#[verifier::external_body]
pub(crate) fn items<'a>(value: &'a serde_json::Value) -> (found: Option<&'a Vec<serde_json::Value>>)
    ensures
        match found {
            Some(items) => json_model(*value).items() == Some(json_models(items@)),
            None => json_model(*value).items() is None,
        },
{
    value.as_array()
}

/// Calls `serde_json::Value::as_u64`. The call returns the number where the
/// value is a whole number from 0 to 2^64 - 1, and nothing otherwise.
#[verifier::external_body]
pub(crate) fn unsigned(value: &serde_json::Value) -> (found: Option<u64>)
    ensures
        found == json_model(*value).unsigned(),
{
    value.as_u64()
}

/// Calls `serde_json::Value::from` with a string. The call makes the document
/// that is this string.
#[verifier::external_body]
pub(crate) fn text_value(text: String) -> (value: serde_json::Value)
    ensures
        json_model(value) == Json::Text(text@),
{
    serde_json::Value::from(text)
}

/// Calls `serde_json::Value::from` with a vector of values. The call makes the
/// array of these elements, in their order.
#[verifier::external_body]
pub(crate) fn list_value(items: Vec<serde_json::Value>) -> (value: serde_json::Value)
    ensures
        json_model(value) == Json::List(json_models(items@)),
{
    serde_json::Value::from(items)
}

/// Calls `serde_json::Value::from_iter` with named values. The call makes the
/// object whose members are these values under these names.
#[verifier::external_body]
pub(crate) fn record_value(named: Vec<(String, serde_json::Value)>) -> (value: serde_json::Value)
    requires
        forall|i: int, j: int|
            0 <= i < j < named@.len() ==> (#[trigger] named@[i]).0@ != (#[trigger] named@[j]).0@,
    ensures
        json_model(value) == Json::Record(json_members(named@)),
{
    serde_json::Value::from_iter(named)
}

/// Calls `to_string` on a `serde_json::Value`, which prints the document in
/// compact form. The text depends on the document alone.
#[verifier::external_body]
pub(crate) fn render(value: &serde_json::Value) -> (text: String)
    ensures
        text@ == json_rendered(json_model(*value)),
{
    value.to_string()
}

} // verus!
