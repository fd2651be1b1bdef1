//! JSON documents as the response decoders read them.
//!
//! The text of a body is parsed by `serde_json`; everything after that, from
//! finding a member to checking the shape of a record, is done here on
//! [`Json`].

use vstd::prelude::*;

verus! {

/// A member of a JSON object.
#[derive(Debug, PartialEq, Eq)]
pub struct Member {
    pub name: String,
    pub value: Json,
}

/// A JSON document.
///
/// A number is held as the `i64` it denotes; a number that is no integer, or
/// lies outside `i64`, is `Number(None)`, since no field of the API's
/// records can hold it.
#[derive(Debug, PartialEq, Eq)]
pub enum Json {
    Null,
    Bool(bool),
    Number(Option<i64>),
    Text(String),
    Array(Vec<Json>),
    Object(Vec<Member>),
}

/// `serde_json::Value`, the document as the parser hands it out. Nothing
/// is read from it here but by [`json_of_value`].
#[verifier::external_type_specification]
#[verifier::external_body]
pub struct ExValue(serde_json::Value);

/// The document that `text` denotes, or `None` where `text` is not one JSON
/// document.
pub uninterp spec fn parsed(text: Seq<char>) -> Option<Json>;

/// Rebuilds a `serde_json::Value` as a [`Json`], variant by variant. A
/// number goes through `serde_json::Number::as_i64`; the members of an
/// object come in the order in which `serde_json::Map` hands them out.
#[verifier::external_body]
fn json_of_value(value: serde_json::Value) -> Json {
    match value {
        serde_json::Value::Null => Json::Null,
        serde_json::Value::Bool(b) => Json::Bool(b),
        serde_json::Value::Number(n) => Json::Number(n.as_i64()),
        serde_json::Value::String(s) => Json::Text(s),
        serde_json::Value::Array(items) => {
            Json::Array(items.into_iter().map(json_of_value).collect())
        },
        serde_json::Value::Object(members) => Json::Object(
            members.into_iter().map(|(name, v)| Member { name, value: json_of_value(v) }).collect(),
        ),
    }
}

/// Parses `text` with `serde_json::from_str`. The contract claims only that
/// the outcome is a function of the text: the same text gives the same
/// document, or fails, every time.
#[verifier::external_body]
fn parse(text: &str) -> (r: Option<Json>)
    ensures
        r == parsed(text@),
{
    match serde_json::from_str::<serde_json::Value>(text) {
        Ok(value) => Some(json_of_value(value)),
        Err(_) => None,
    }
}

/// The value of the first member of `members` named `key`.
pub open spec fn lookup(members: Seq<Member>, key: Seq<char>) -> Option<Json>
    decreases members.len(),
{
    if members.len() == 0 {
        None
    } else if members[0].name@ == key {
        Some(members[0].value)
    } else {
        lookup(members.skip(1), key)
    }
}

/// Finds the first member named `key`.
fn find<'a>(members: &'a Vec<Member>, key: &str) -> (r: Option<&'a Json>)
    ensures
        match r {
            Some(found) => lookup(members@, key@) == Some(*found),
            None => lookup(members@, key@) is None,
        },
{
    let wanted = key.to_owned();
    let mut i: usize = 0;
    assert(members@.skip(0) =~= members@);
    while i < members.len()
        invariant
            i <= members.len(),
            wanted@ == key@,
            lookup(members@, key@) == lookup(members@.skip(i as int), key@),
        decreases members.len() - i,
    {
        if members[i].name == wanted {
            return Some(&members[i].value);
        }
        assert(members@.skip(i as int).skip(1) =~= members@.skip(i + 1));
        i += 1;
    }
    None
}

impl Json {
    /// The member `key` of an object; `None` for a missing member and for a
    /// document that is no object.
    pub open spec fn at(self, key: Seq<char>) -> Option<Json> {
        match self {
            Json::Object(members) => lookup(members@, key),
            _ => None,
        }
    }

    /// Parses the text of a body. `None` means that the text is not JSON.
    pub fn parse(text: &str) -> (r: Option<Json>)
        ensures
            r == parsed(text@),
    {
        parse(text)
    }

    /// Finds member `key`.
    pub fn get(&self, key: &str) -> (r: Option<&Json>)
        ensures
            match r {
                Some(found) => self.at(key@) == Some(*found),
                None => self.at(key@) is None,
            },
    {
        match self {
            Json::Object(members) => find(members, key),
            _ => None,
        }
    }
}

} // verus!
