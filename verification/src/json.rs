//! JSON documents: `serde_json`'s value type, its mathematical model, and the
//! contracts of the `serde_json` functions that the library calls.
//!
//! The contracts in this file are taken on trust: each says what it claims of
//! `serde_json`, and everything else in the crate is verified against them.

use serde_json::Value;
use vstd::prelude::*;

verus! {

/// A JSON document as a mathematical value. Only what a notebook is read
/// through is told apart: strings, lists and objects. Null, booleans and
/// numbers are all `Other`.
pub ghost enum Json {
    /// Null, a boolean or a number.
    Other,
    /// A string, with its characters.
    Text(Seq<char>),
    /// An array, with its elements in order.
    List(Seq<Json>),
    /// An object, with its members by key.
    Object(Map<Seq<char>, Json>),
}

impl Json {
    /// The characters of a string; `None` for any other kind of value.
    pub open spec fn text(self) -> Option<Seq<char>> {
        match self {
            Json::Text(s) => Some(s),
            _ => None,
        }
    }

    /// The elements of a list; `None` for any other kind of value.
    pub open spec fn items(self) -> Option<Seq<Json>> {
        match self {
            Json::List(items) => Some(items),
            _ => None,
        }
    }

    /// The member of an object under `key`; `None` where the object has no
    /// such key, and for any other kind of value.
    pub open spec fn member(self, key: Seq<char>) -> Option<Json> {
        match self {
            Json::Object(members) => if members.contains_key(key) {
                Some(members[key])
            } else {
                None
            },
            _ => None,
        }
    }
}

/// `serde_json::Value`, carried through verified code as an opaque value.
#[verifier::external_type_specification]
#[verifier::external_body]
pub struct ExValue(serde_json::Value);

/// `serde_json::Error`, carried through verified code as an opaque value.
#[verifier::external_type_specification]
#[verifier::external_body]
pub struct ExError(serde_json::Error);

/// The document that a `serde_json::Value` holds.
pub uninterp spec fn json_of(v: Value) -> Json;

/// The document that a JSON text stands for: what `serde_json::from_str`
/// makes of it; `None` where it reports an error, as it does for a text that
/// is not one JSON value and for one nested deeper than it will follow.
pub uninterp spec fn parsed_json(text: Seq<char>) -> Option<Json>;

/// The documents that a vector of values holds, in order.
pub open spec fn jsons_of(values: Seq<Value>) -> Seq<Json> {
    values.map_values(|v: Value| json_of(v))
}

/// `serde_json::Value::as_str`: `Some` with the characters when the value is
/// a JSON string, `None` for every other kind of value.
pub assume_specification<'a>[ Value::as_str ](v: &'a Value) -> (r: Option<&'a str>)
    ensures
        match r {
            Some(s) => json_of(*v).text() == Some(s@),
            None => json_of(*v).text() is None,
        },
;

/// `serde_json::Value::as_array`: `Some` with the vector of elements when the
/// value is a JSON array, `None` for every other kind of value.
pub assume_specification<'a>[ Value::as_array ](v: &'a Value) -> (r: Option<&'a Vec<Value>>)
    ensures
        match r {
            Some(items) => json_of(*v).items() == Some(jsons_of(items@)),
            None => json_of(*v).items() is None,
        },
;

/// `serde_json::Value::get` with a string index: `Some` with the member
/// stored under `key` when the value is a JSON object that has this key,
/// `None` when it is not an object or has no such key.
#[verifier::external_body]
pub(crate) fn member<'a>(v: &'a Value, key: &str) -> (r: Option<&'a Value>)
    ensures
        match r {
            Some(m) => json_of(*v).member(key@) == Some(json_of(*m)),
            None => json_of(*v).member(key@) is None,
        },
{
    v.get(key)
}

/// `serde_json::from_str` at type `Value`: `Ok` with the document that it
/// parsed, `Err` with its report. The same text always gives the same
/// outcome; which texts are accepted is left to `serde_json`.
#[verifier::external_body]
pub(crate) fn parse_document(text: &str) -> (r: Result<Value, serde_json::Error>)
    ensures
        match r {
            Ok(v) => parsed_json(text@) == Some(json_of(v)),
            Err(_) => parsed_json(text@) is None,
        },
{
    serde_json::from_str(text)
}

/// The line that a parser's report names: what `serde_json::Error::line`
/// returns for `e`.
pub uninterp spec fn error_line(e: serde_json::Error) -> usize;

/// The column that a parser's report names: what `serde_json::Error::column`
/// returns for `e`.
pub uninterp spec fn error_column(e: serde_json::Error) -> usize;

/// `serde_json::Error::line`: the line stored in the report, at which the
/// parser stopped. The number is named; nothing more is claimed of it.
pub assume_specification[ serde_json::Error::line ](e: &serde_json::Error) -> (n: usize)
    ensures
        n == error_line(*e),
;

/// `serde_json::Error::column`: the column stored in the report, at which the
/// parser stopped. The number is named; nothing more is claimed of it.
pub assume_specification[ serde_json::Error::column ](e: &serde_json::Error) -> (n: usize)
    ensures
        n == error_column(*e),
;

} // verus!
