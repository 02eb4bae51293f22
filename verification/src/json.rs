//! JSON documents as the mappers read them.
//!
//! Parsing is done by `serde_json`. Its `Value` is opaque to the verifier, so
//! a parsed document is copied, node for node, into [`Json`], and everything
//! that reads a document works on that type.

use crate::error::ParseError;
use crate::text::same_text;
use vstd::prelude::*;

verus! {

/// `serde_json::Value`, a parsed JSON value. Opaque here: what it holds is
/// named by [`value_content`].
#[verifier::external_type_specification]
#[verifier::external_body]
pub struct ExValue(serde_json::Value);

/// `serde_json::Error`, the parser's error. Opaque here, and never read.
#[verifier::external_type_specification]
#[verifier::external_body]
pub struct ExError(serde_json::Error);

/// A JSON document.
///
/// A number is kept as a kind only: nothing in this library reads its value.
/// The members of an object stand in the order in which they are traversed,
/// and a key is looked up from the front.
#[derive(Debug, PartialEq, Eq)]
pub enum Json {
    Null,
    Bool(bool),
    Number,
    Text(String),
    Array(Vec<Json>),
    Object(Vec<(String, Json)>),
}

/// The mathematical value of a [`Json`] document.
pub enum JsonValue {
    Null,
    Bool(bool),
    Number,
    Text(Seq<char>),
    Array(Seq<JsonValue>),
    Object(Seq<(Seq<char>, JsonValue)>),
}

impl View for Json {
    type V = JsonValue;

    open spec fn view(&self) -> JsonValue
        decreases self,
    {
        match self {
            Json::Null => JsonValue::Null,
            Json::Bool(b) => JsonValue::Bool(*b),
            Json::Number => JsonValue::Number,
            Json::Text(s) => JsonValue::Text(s@),
            Json::Array(items) => JsonValue::Array(
                Seq::new(
                    items.len() as nat,
                    |i: int|
                        if 0 <= i < items.len() {
                            items[i]@
                        } else {
                            JsonValue::Null
                        },
                ),
            ),
            Json::Object(members) => JsonValue::Object(
                Seq::new(
                    members.len() as nat,
                    |i: int|
                        (
                            members[i].0@,
                            if 0 <= i < members.len() {
                                members[i].1@
                            } else {
                                JsonValue::Null
                            },
                        ),
                ),
            ),
        }
    }
}

/// The value of the first of `members` whose key is `key`.
pub open spec fn first_named(members: Seq<(Seq<char>, JsonValue)>, key: Seq<char>) -> Option<
    JsonValue,
>
    decreases members.len(),
{
    if members.len() == 0 {
        None
    } else if members[0].0 == key {
        Some(members[0].1)
    } else {
        first_named(members.drop_first(), key)
    }
}

impl JsonValue {
    /// The value of the member `key`, if this is an object that has one.
    /// Of several members with that key, the first counts.
    pub open spec fn member(self, key: Seq<char>) -> Option<JsonValue> {
        match self {
            JsonValue::Object(members) => first_named(members, key),
            _ => None,
        }
    }

    /// The items of an array; empty for any other value.
    pub open spec fn items(self) -> Seq<JsonValue> {
        match self {
            JsonValue::Array(items) => items,
            _ => Seq::empty(),
        }
    }

    /// The members of an object; empty for any other value.
    pub open spec fn members(self) -> Seq<(Seq<char>, JsonValue)> {
        match self {
            JsonValue::Object(members) => members,
            _ => Seq::empty(),
        }
    }
}

impl Json {
    /// The value of the member `key`, if this is an object that has one.
    pub fn member(&self, key: &str) -> (r: Option<&Json>)
        ensures
            match r {
                Some(value) => self@.member(key@) == Some(value@),
                None => self@.member(key@) is None,
            },
    {
        match self {
            Json::Object(members) => {
                let ghost all = self@.members();
                let mut i: usize = 0;
                assert(all.skip(0) == all);
                while i < members.len()
                    invariant
                        i <= members.len(),
                        all.len() == members.len(),
                        self@.member(key@) == first_named(all, key@),
                        forall|j: int|
                            0 <= j < members.len() ==> all[j] == (members[j].0@, members[j].1@),
                        first_named(all, key@) == first_named(all.skip(i as int), key@),
                    decreases members.len() - i,
                {
                    assert(all.skip(i as int).drop_first() == all.skip(i as int + 1));
                    if same_text(members[i].0.as_str(), key) {
                        return Some(&members[i].1);
                    }
                    i += 1;
                }
                None
            },
            _ => None,
        }
    }
}

/// What a `serde_json::Value` holds: its tree, with a number as its kind
/// only and the members of each object in the order in which its map hands
/// them out.
pub uninterp spec fn value_content(value: serde_json::Value) -> JsonValue;

/// What `serde_json::from_slice` makes of `bytes` when asked for a
/// `serde_json::Value`: the content of that value, or `None` where it
/// reports an error.
pub uninterp spec fn parsed_document(bytes: Seq<u8>) -> Option<JsonValue>;

/// Parses `body` as JSON.
///
/// Trusted: calls `serde_json::from_slice` for a `serde_json::Value`. The
/// contract only names the outcome, as a function of the bytes.
#[verifier::external_body]
fn value_from_slice(body: &[u8]) -> (r: Result<serde_json::Value, serde_json::Error>)
    ensures
        match r {
            Ok(value) => parsed_document(body@) == Some(value_content(value)),
            Err(_) => parsed_document(body@) is None,
        },
{
    serde_json::from_slice::<serde_json::Value>(body)
}

/// Copies a parsed value into a [`Json`] document, node for node.
///
/// Trusted: takes a `serde_json::Value` apart, one arm for each of its
/// variants, and keeps the order in which `serde_json::Map` hands out the
/// members of an object.
#[verifier::external_body]
fn json_of_value(value: serde_json::Value) -> (doc: Json)
    ensures
        doc@ == value_content(value),
{
    match value {
        serde_json::Value::Null => Json::Null,
        serde_json::Value::Bool(b) => Json::Bool(b),
        serde_json::Value::Number(_) => Json::Number,
        serde_json::Value::String(s) => Json::Text(s),
        serde_json::Value::Array(items) => Json::Array(items.into_iter().map(json_of_value).collect()),
        serde_json::Value::Object(members) => Json::Object(
            members.into_iter().map(|(key, item)| (key, json_of_value(item))).collect(),
        ),
    }
}

/// Parses `body` as a JSON document.
pub fn parse_json(body: &[u8]) -> (r: Result<Json, ParseError>)
    ensures
        match r {
            Ok(doc) => parsed_document(body@) == Some(doc@),
            Err(e) => parsed_document(body@) is None && e == ParseError::InvalidJson,
        },
{
    match value_from_slice(body) {
        Ok(value) => Ok(json_of_value(value)),
        Err(_) => Err(ParseError::InvalidJson),
    }
}

} // verus!
