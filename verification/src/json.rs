//! JSON documents, as far as the stream decoder reads them.
//!
//! Parsing is left to `serde_json`. What it returns is copied, node for node, into
//! [`JsonValue`], a tree of plain values that the decoder's rules can be stated over.
//! Nothing is proved of the parser or of the copy: the contracts say that a text always
//! gives the same document, and go on from whatever document that is.

use crate::text::same_text;
use vstd::prelude::*;

verus! {

/// A JSON document. A number is kept as the text `serde_json` prints for it; an object is
/// the list of its members in the order `serde_json` hands them out.
#[derive(Debug, PartialEq, Eq)]
pub enum JsonValue {
    Null,
    Bool(bool),
    Number(String),
    Text(String),
    Array(Vec<JsonValue>),
    Object(Vec<(String, JsonValue)>),
}

/// Makes `serde_json::Value` known to the verifier, as a type that it cannot look into.
#[verifier::external_type_specification]
#[verifier::external_body]
pub struct ExSerdeValue(serde_json::Value);

/// What `serde_json::from_str` makes of a text: the value it stands for, or `None` where
/// the text is not one JSON document.
pub uninterp spec fn json_value(text: Seq<char>) -> Option<serde_json::Value>;

/// What a value of `serde_json` holds, node for node.
pub uninterp spec fn json_tree(value: serde_json::Value) -> JsonValue;

/// The document that a text stands for, if it is one.
pub open spec fn json_document(text: Seq<char>) -> Option<JsonValue> {
    match json_value(text) {
        Some(value) => Some(json_tree(value)),
        None => None,
    }
}

/// The first member of `members` that goes by the name `key`.
pub open spec fn find_member(members: Seq<(String, JsonValue)>, key: Seq<char>) -> Option<
    JsonValue,
>
    decreases members.len(),
{
    if members.len() == 0 {
        None
    } else if members.first().0@ == key {
        Some(members.first().1)
    } else {
        find_member(members.drop_first(), key)
    }
}

impl JsonValue {
    /// The member `key` of an object; `None` for a missing member and for every value that
    /// is not an object.
    pub open spec fn member(self, key: Seq<char>) -> Option<JsonValue> {
        match self {
            JsonValue::Object(members) => find_member(members@, key),
            _ => None,
        }
    }

    /// Looks up the member `key` of an object.
    pub fn get(&self, key: &str) -> (r: Option<&JsonValue>)
        ensures
            match r {
                Some(v) => self.member(key@) == Some(*v),
                None => self.member(key@) is None,
            },
    {
        match self {
            JsonValue::Object(members) => {
                let mut i: usize = 0;
                assert(members@.skip(0) == members@);
                while i < members.len()
                    invariant
                        i <= members.len(),
                        self.member(key@) == find_member(members@, key@),
                        find_member(members@, key@) == find_member(members@.skip(i as int), key@),
                    decreases members.len() - i,
                {
                    proof {
                        assert(members@.skip(i as int).drop_first() == members@.skip(i + 1));
                        assert(members@.skip(i as int).first() == members@[i as int]);
                    }
                    if same_text(members[i].0.as_str(), key) {
                        return Some(&members[i].1);
                    }
                    i += 1;
                }
                None
            },
            _ => None,
        }
    }
}

/// Copies a value of `serde_json` into a [`JsonValue`], variant by variant and child by
/// child; a number goes over as the text of its `Display`. The contract names the result.
#[verifier::external_body]
fn json_from_value(value: serde_json::Value) -> (tree: JsonValue)
    ensures
        tree == json_tree(value),
{
    match value {
        serde_json::Value::Null => JsonValue::Null,
        serde_json::Value::Bool(b) => JsonValue::Bool(b),
        serde_json::Value::Number(n) => JsonValue::Number(n.to_string()),
        serde_json::Value::String(s) => JsonValue::Text(s),
        serde_json::Value::Array(items) => JsonValue::Array(
            items.into_iter().map(json_from_value).collect(),
        ),
        serde_json::Value::Object(members) => JsonValue::Object(
            members.into_iter().map(|(k, v)| (k, json_from_value(v))).collect(),
        ),
    }
}

/// Calls `serde_json::from_str` for a `serde_json::Value`. The contract says only that the
/// outcome is a function of the text: `None` stands for any error of the parser.
#[verifier::external_body]
fn json_from_str(text: &str) -> (value: Option<serde_json::Value>)
    ensures
        value == json_value(text@),
{
    serde_json::from_str::<serde_json::Value>(text).ok()
}

/// Parses a text as one JSON document.
pub fn parse_document(text: &str) -> (doc: Option<JsonValue>)
    ensures
        doc == json_document(text@),
{
    match json_from_str(text) {
        Some(value) => Some(json_from_value(value)),
        None => None,
    }
}

} // verus!
