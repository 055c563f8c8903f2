//! JSON documents as plain values.

use crate::text::text_eq;
use serde_json::Value;
use vstd::prelude::*;

verus! {

/// A JSON value together with its compact text.
#[derive(Debug, PartialEq, Eq)]
pub struct Json {
    pub text: String,
    pub shape: Shape,
}

/// What kind of value it is, and what it holds. A number is known by its text.
#[derive(Debug, PartialEq, Eq)]
pub enum Shape {
    Null,
    Bool(bool),
    Number,
    Text(String),
    List(Vec<Json>),
    Object(Vec<(String, Json)>),
}

/// The value that a document holds, or `None` where it is not one JSON value.
pub uninterp spec fn json_document(document: Seq<u8>) -> Option<Json>;

/// `serde_json::Value`, which is only carried from reading a document to the
/// plain value.
#[verifier::external_type_specification]
#[verifier::external_body]
pub struct ExValue(Value);

/// The plain value of a `serde_json::Value`: its variant with what that holds,
/// and its compact text as `Value::to_string` writes it. Nothing is claimed of it
/// here; what comes of a whole document has the name `json_document`.
#[verifier::external_body]
fn plain_value(value: Value) -> (json: Json) {
    let text = value.to_string();
    let shape = match value {
        Value::Null => Shape::Null,
        Value::Bool(held) => Shape::Bool(held),
        Value::Number(_) => Shape::Number,
        Value::String(held) => Shape::Text(held),
        Value::Array(parts) => Shape::List(parts.into_iter().map(plain_value).collect()),
        Value::Object(parts) => {
            Shape::Object(parts.into_iter().map(|(key, part)| (key, plain_value(part))).collect())
        },
    };
    Json { text, shape }
}

/// `serde_json::from_slice` into a `serde_json::Value`, taken over as a plain
/// value: a function of the bytes alone, `None` where reading fails.
#[verifier::external_body]
pub(crate) fn read_json(document: &[u8]) -> (read: Option<Json>)
    ensures
        read == json_document(document@),
{
    serde_json::from_slice::<Value>(document).ok().map(plain_value)
}

/// The first entry under a key.
pub open spec fn entry(entries: Seq<(String, Json)>, key: Seq<char>) -> Option<Json>
    decreases entries.len(),
{
    if entries.len() == 0 {
        None
    } else if entries[0].0@ == key {
        Some(entries[0].1)
    } else {
        entry(entries.drop_first(), key)
    }
}

impl Json {
    /// The member of an object under a key.
    pub open spec fn member(self, key: Seq<char>) -> Option<Json> {
        match self.shape {
            Shape::Object(entries) => entry(entries@, key),
            _ => None,
        }
    }

    /// The string that this value is.
    pub open spec fn string(self) -> Option<Seq<char>> {
        match self.shape {
            Shape::Text(text) => Some(text@),
            _ => None,
        }
    }

    /// The string that a member is.
    pub open spec fn member_string(self, key: Seq<char>) -> Option<Seq<char>> {
        match self.member(key) {
            Some(value) => value.string(),
            None => None,
        }
    }

    /// The items that a member lists.
    pub open spec fn member_items(self, key: Seq<char>) -> Option<Seq<Json>> {
        match self.member(key) {
            Some(value) => value.items(),
            None => None,
        }
    }

    /// The items of a list.
    pub open spec fn items(self) -> Option<Seq<Json>> {
        match self.shape {
            Shape::List(items) => Some(items@),
            _ => None,
        }
    }

    /// Finds a member of an object.
    pub fn get(&self, key: &str) -> (found: Option<&Json>)
        ensures
            match found {
                Some(value) => self.member(key@) == Some(*value),
                None => self.member(key@) is None,
            },
    {
        match &self.shape {
            Shape::Object(entries) => {
                let mut i: usize = 0;
                assert(entries@.skip(0) =~= entries@);
                while i < entries.len()
                    invariant
                        i <= entries@.len(),
                        self.member(key@) == entry(entries@, key@),
                        entry(entries@, key@) == entry(entries@.skip(i as int), key@),
                    decreases entries@.len() - i,
                {
                    assert(entries@.skip(i as int).drop_first() =~= entries@.skip(i + 1));
                    if text_eq(entries[i].0.as_str(), key) {
                        return Some(&entries[i].1);
                    }
                    i += 1;
                }
                None
            },
            _ => None,
        }
    }

    /// The string that this value is, if it is one.
    pub fn as_str(&self) -> (text: Option<&str>)
        ensures
            match text {
                Some(held) => self.string() == Some(held@),
                None => self.string() is None,
            },
    {
        match &self.shape {
            Shape::Text(text) => Some(text.as_str()),
            _ => None,
        }
    }

    /// The string that a member is, if it is one.
    pub fn get_str(&self, key: &str) -> (text: Option<&str>)
        ensures
            match text {
                Some(held) => self.member_string(key@) == Some(held@),
                None => self.member_string(key@) is None,
            },
    {
        match self.get(key) {
            Some(value) => value.as_str(),
            None => None,
        }
    }

    /// The items of a list, if this is one.
    pub fn as_items(&self) -> (items: Option<&Vec<Json>>)
        ensures
            match items {
                Some(held) => self.items() == Some(held@),
                None => self.items() is None,
            },
    {
        match &self.shape {
            Shape::List(items) => Some(items),
            _ => None,
        }
    }

    /// The items that a member lists, if it is a list.
    pub fn get_items(&self, key: &str) -> (items: Option<&Vec<Json>>)
        ensures
            match items {
                Some(held) => self.member_items(key@) == Some(held@),
                None => self.member_items(key@) is None,
            },
    {
        match self.get(key) {
            Some(value) => value.as_items(),
            None => None,
        }
    }

    /// Whether this is an object.
    pub fn is_object(&self) -> (yes: bool)
        ensures
            yes == (self.shape is Object),
    {
        match self.shape {
            Shape::Object(_) => true,
            _ => false,
        }
    }

    /// The truth value that this is, if it is one.
    pub fn as_bool(&self) -> (value: Option<bool>)
        ensures
            value == (match self.shape {
                Shape::Bool(value) => Some(value),
                _ => None,
            }),
    {
        match self.shape {
            Shape::Bool(value) => Some(value),
            _ => None,
        }
    }
}

/// The member that is found is the first one under its key, and where none is found there
/// is none. A value that is no object has no members, and one that is no string and no list
/// is not taken for one.
pub proof fn members_are_found_by_their_key(value: Json, key: Seq<char>)
    ensures
        value.shape matches Shape::Object(entries) ==> {
            &&& value.member(key) matches Some(found) ==> exists|i: int|
                0 <= i < entries@.len() && (#[trigger] entries@[i]).0@ == key && entries@[i].1
                    == found && forall|j: int| 0 <= j < i ==> (#[trigger] entries@[j]).0@ != key
            &&& value.member(key) is None ==> forall|i: int|
                0 <= i < entries@.len() ==> (#[trigger] entries@[i]).0@ != key
        },
        value.shape !is Object ==> value.member(key) is None,
        value.string() is Some <==> value.shape is Text,
        value.shape matches Shape::Text(text) ==> value.string() == Some(text@),
        value.items() is Some <==> value.shape is List,
        value.shape matches Shape::List(items) ==> value.items() == Some(items@),
        value.member_string(key) matches Some(text) ==> (value.member(key) matches Some(member)
            && member.string() == Some(text)),
        value.member_items(key) matches Some(items) ==> (value.member(key) matches Some(member)
            && member.items() == Some(items)),
{
    if let Shape::Object(entries) = value.shape {
        entries_are_found(entries@, key);
    }
}

proof fn entries_are_found(entries: Seq<(String, Json)>, key: Seq<char>)
    ensures
        entry(entries, key) matches Some(found) ==> exists|i: int|
            0 <= i < entries.len() && (#[trigger] entries[i]).0@ == key && entries[i].1 == found
                && forall|j: int| 0 <= j < i ==> (#[trigger] entries[j]).0@ != key,
        entry(entries, key) is None ==> forall|i: int|
            0 <= i < entries.len() ==> (#[trigger] entries[i]).0@ != key,
    decreases entries.len(),
{
    if entries.len() > 0 && entries[0].0@ != key {
        let rest = entries.drop_first();
        entries_are_found(rest, key);
        if let Some(found) = entry(entries, key) {
            let at = choose|i: int|
                0 <= i < rest.len() && (#[trigger] rest[i]).0@ == key && rest[i].1 == found
                    && forall|j: int| 0 <= j < i ==> (#[trigger] rest[j]).0@ != key;
            assert(entries[at + 1] == rest[at]);
            assert forall|j: int| 0 <= j < at + 1 implies (#[trigger] entries[j]).0@ != key by {
                if j > 0 {
                    assert(rest[j - 1] == entries[j]);
                }
            }
        } else {
            assert forall|i: int| 0 <= i < entries.len() implies (#[trigger] entries[i]).0@
                != key by {
                if i > 0 {
                    assert(rest[i - 1] == entries[i]);
                }
            }
        }
    }
}

}
