//! JSON documents as values of this crate, and the lookups the classifier makes
//! in them.
//!
//! Text is turned into a [`Json`] by `serde_json`; everything that reads a
//! document afterwards is written and proved here.

use vstd::prelude::*;

verus! {

/// One member of a JSON object.
#[derive(Debug, PartialEq, Eq)]
pub struct Member {
    pub key: String,
    pub value: Json,
}

/// A JSON document. Numbers are told apart from the other kinds but their
/// value is not carried: nothing in this crate reads one.
#[derive(Debug, PartialEq, Eq)]
pub enum Json {
    Null,
    Bool(bool),
    Number,
    Text(String),
    Array(Vec<Json>),
    Object(Vec<Member>),
}

/// The value of the first member at or after `from` whose key is `key`.
pub open spec fn first_member(members: Seq<Member>, key: Seq<char>, from: int) -> Option<Json>
    decreases members.len() - from,
{
    if from < 0 || from >= members.len() {
        None
    } else if members[from].key@ == key {
        Some(members[from].value)
    } else {
        first_member(members, key, from + 1)
    }
}

impl Json {
    /// The member `key` of an object; `None` for a missing member and for
    /// anything that is not an object.
    pub open spec fn member(self, key: Seq<char>) -> Option<Json> {
        match self {
            Json::Object(members) => first_member(members@, key, 0),
            _ => None,
        }
    }

    /// The element `index` of an array; `None` out of range and for anything
    /// that is not an array.
    pub open spec fn element(self, index: int) -> Option<Json> {
        match self {
            Json::Array(items) => if 0 <= index < items@.len() {
                Some(items@[index])
            } else {
                None
            },
            _ => None,
        }
    }

    /// The characters of a string; `None` for anything that is not a string.
    pub open spec fn text(self) -> Option<Seq<char>> {
        match self {
            Json::Text(s) => Some(s@),
            _ => None,
        }
    }

    /// Looks up the member `key` of an object.
    pub fn get(&self, key: &String) -> (res: Option<&Json>)
        ensures
            match res {
                Some(value) => self.member(key@) == Some(*value),
                None => self.member(key@) is None,
            },
    {
        match self {
            Json::Object(members) => {
                let mut i: usize = 0;
                while i < members.len()
                    invariant
                        i <= members.len(),
                        self.member(key@) == first_member(members@, key@, i as int),
                    decreases members.len() - i,
                {
                    if members[i].key == *key {
                        return Some(&members[i].value);
                    }
                    i = i + 1;
                }
                None
            },
            _ => None,
        }
    }

    /// Looks up the element `index` of an array.
    pub fn at(&self, index: usize) -> (res: Option<&Json>)
        ensures
            match res {
                Some(value) => self.element(index as int) == Some(*value),
                None => self.element(index as int) is None,
            },
    {
        match self {
            Json::Array(items) => if index < items.len() {
                Some(&items[index])
            } else {
                None
            },
            _ => None,
        }
    }

    /// The string that this document is, if it is one.
    pub fn as_text(&self) -> (res: Option<&String>)
        ensures
            match res {
                Some(s) => self.text() == Some(s@),
                None => self.text() is None,
            },
    {
        match self {
            Json::Text(s) => Some(s),
            _ => None,
        }
    }
}

/// `serde_json::Value`, carried through without a view of what it holds.
#[verifier::external_type_specification]
#[verifier::external_body]
pub struct ExValue(serde_json::Value);

/// What `serde_json` reads `text` as: the document, or `None` where it
/// rejects the text.
pub uninterp spec fn json_parse(text: Seq<char>) -> Option<Json>;

/// Parses `text` with `serde_json::from_str` into a `serde_json::Value` and
/// rebuilds that value as a [`Json`].
///
/// Trusted: the result is a function of the text alone, named [`json_parse`].
/// Nothing is claimed about which texts are accepted or what they yield.
#[verifier::external_body]
pub(crate) fn parse_json(text: &str) -> (res: Option<Json>)
    ensures
        res == json_parse(text@),
{
    serde_json::from_str::<serde_json::Value>(text).ok().map(json_of_value)
}

/// Rebuilds a `serde_json::Value` as a [`Json`], variant by variant. An
/// object's members come in the order in which `serde_json::Map` hands them
/// out.
#[verifier::external_body]
pub(crate) fn json_of_value(value: serde_json::Value) -> Json {
    match value {
        serde_json::Value::Null => Json::Null,
        serde_json::Value::Bool(b) => Json::Bool(b),
        serde_json::Value::Number(_) => Json::Number,
        serde_json::Value::String(s) => Json::Text(s),
        serde_json::Value::Array(items) => Json::Array(
            items.into_iter().map(json_of_value).collect(),
        ),
        serde_json::Value::Object(map) => Json::Object(
            map.into_iter().map(|(key, v)| Member { key, value: json_of_value(v) }).collect(),
        ),
    }
}

/// Parses `text` as a JSON document.
pub fn parse(text: &str) -> (res: Option<Json>)
    ensures
        res == json_parse(text@),
{
    parse_json(text)
}

} // verus!
