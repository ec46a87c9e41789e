//! JSON documents, read and written with `serde_json`.
//!
//! `serde_json` does the parsing and the escaping. What it returns is only
//! named here, not described: [`parsed_json`] for the document it reads from a
//! text, [`json_quoted`] for the string literal it writes for a text. What the
//! library makes of a document, and how it frames a request around the
//! literals, is verified over the [`Json`] tree and these names.

use crate::text::same_text;
use vstd::prelude::*;

verus! {

/// `serde_json::Value`, a parsed document. Nothing is known of what is
/// inside one but through [`value_contents`].
#[verifier::external_type_specification]
#[verifier::external_body]
pub struct ExJsonValue(serde_json::Value);

/// A JSON document as a tree of plain values.
#[derive(Debug)]
pub enum Json {
    Null,
    Bool(bool),
    /// A number: its value where it is an integer that fits `i64`, else `None`.
    Number(Option<i64>),
    Text(String),
    Array(Vec<Json>),
    /// An object: its members, each a name and a value.
    Object(Vec<(String, Json)>),
}

/// The tree that a `serde_json::Value` holds.
pub uninterp spec fn value_contents(value: serde_json::Value) -> Json;

/// The document that `serde_json` reads from `text`, or `None` where it
/// rejects the text.
pub uninterp spec fn parsed_json(text: Seq<char>) -> Option<Json>;

/// The JSON string literal that `serde_json` writes for `text` (quotes
/// included), or `None` where it reports an error.
pub uninterp spec fn json_quoted(text: Seq<char>) -> Option<Seq<char>>;

/// `serde_json::from_str` at type `Value`: parses a whole text as one JSON
/// document; `None` stands for its error. The contract only names the
/// outcome: the same text gives the same document, or is rejected, every time.
#[verifier::external_body]
pub(crate) fn parse_value(text: &str) -> (parsed: Option<serde_json::Value>)
    ensures
        match parsed {
            Some(value) => parsed_json(text@) == Some(value_contents(value)),
            None => parsed_json(text@) is None,
        },
{
    serde_json::from_str::<serde_json::Value>(text).ok()
}

/// Takes a `serde_json::Value` apart, variant by variant, into a [`Json`]
/// tree; a number goes through `Number::as_i64`. The contract only names the
/// result.
#[verifier::external_body]
pub(crate) fn json_of_value(value: serde_json::Value) -> (json: Json)
    ensures
        json == value_contents(value),
{
    match value {
        serde_json::Value::Null => Json::Null,
        serde_json::Value::Bool(b) => Json::Bool(b),
        serde_json::Value::Number(n) => Json::Number(n.as_i64()),
        serde_json::Value::String(s) => Json::Text(s),
        serde_json::Value::Array(items) => Json::Array(
            items.into_iter().map(json_of_value).collect(),
        ),
        serde_json::Value::Object(members) => Json::Object(
            members.into_iter().map(|(name, v)| (name, json_of_value(v))).collect(),
        ),
    }
}

/// `serde_json::to_string` at type `str`: writes a text as a JSON string
/// literal; `None` stands for its error. The contract only names the outcome.
#[verifier::external_body]
pub(crate) fn quote_text(text: &str) -> (quoted: Option<String>)
    ensures
        match quoted {
            Some(literal) => json_quoted(text@) == Some(literal@),
            None => json_quoted(text@) is None,
        },
{
    serde_json::to_string(text).ok()
}

/// All the values of `items`, where none is missing.
pub open spec fn collected<T>(items: Seq<Option<T>>) -> Option<Seq<T>> {
    if forall|i: int| 0 <= i < items.len() ==> (#[trigger] items[i]) is Some {
        Some(Seq::new(items.len(), |i: int| items[i].unwrap()))
    } else {
        None
    }
}

/// The value of the first member called `name`, if any.
pub open spec fn member(members: Seq<(String, Json)>, name: Seq<char>) -> Option<Json>
    decreases members.len(),
{
    if members.len() == 0 {
        None
    } else if members[0].0@ == name {
        Some(members[0].1)
    } else {
        member(members.skip(1), name)
    }
}

impl Json {
    /// The value of the member called `name`, where this is an object that
    /// has one.
    pub open spec fn field(self, name: Seq<char>) -> Option<Json> {
        match self {
            Json::Object(members) => member(members@, name),
            _ => None,
        }
    }

    /// Reads the document in `text`.
    pub fn parse(text: &str) -> (parsed: Option<Json>)
        ensures
            parsed == parsed_json(text@),
    {
        match parse_value(text) {
            Some(value) => Some(json_of_value(value)),
            None => None,
        }
    }

    /// Looks up the member called `name`.
    pub fn get(&self, name: &str) -> (found: Option<&Json>)
        ensures
            match found {
                Some(value) => self.field(name@) == Some(*value),
                None => self.field(name@) is None,
            },
    {
        match self {
            Json::Object(members) => {
                let mut i: usize = 0;
                assert(members@.skip(0) == members@);
                while i < members.len()
                    invariant
                        i <= members.len(),
                        self.field(name@) == member(members@.skip(i as int), name@),
                    decreases members.len() - i,
                {
                    let ghost rest = members@.skip(i as int);
                    assert(rest[0] == members@[i as int]);
                    assert(rest.skip(1) == members@.skip(i + 1));
                    if same_text(members[i].0.as_str(), name) {
                        return Some(&members[i].1);
                    }
                    i += 1;
                }
                None
            },
            _ => None,
        }
    }
}

} // verus!
