//! Reading typed records out of JSON documents.
//!
//! A record type says which documents have its shape and which record a
//! document of that shape holds; [`field`] reads one member of an object as
//! any such type. A document either has the shape, and then the whole record
//! is read, or it has not, and then nothing is.

use crate::json::Json;
use vstd::prelude::*;

verus! {

/// A value that can be read from a JSON document.
pub trait FromJson: Sized {
    /// Whether `json` has the shape of such a value.
    spec fn fits(json: Json) -> bool;

    /// Whether `self` is the value that `json` holds.
    spec fn read_from(&self, json: Json) -> bool;

    /// Reads the value that `json` holds, where `json` has its shape.
    fn from_json(json: &Json) -> (r: Option<Self>)
        ensures
            match r {
                Some(value) => Self::fits(*json) && value.read_from(*json),
                None => !Self::fits(*json),
            },
    ;
}

impl FromJson for bool {
    open spec fn fits(json: Json) -> bool {
        json is Bool
    }

    open spec fn read_from(&self, json: Json) -> bool {
        json == Json::Bool(*self)
    }

    fn from_json(json: &Json) -> (r: Option<Self>) {
        match json {
            Json::Bool(b) => Some(*b),
            _ => None,
        }
    }
}

impl FromJson for i64 {
    open spec fn fits(json: Json) -> bool {
        json matches Json::Number(Some(_))
    }

    open spec fn read_from(&self, json: Json) -> bool {
        json == Json::Number(Some(*self))
    }

    fn from_json(json: &Json) -> (r: Option<Self>) {
        match json {
            Json::Number(Some(n)) => Some(*n),
            _ => None,
        }
    }
}

impl FromJson for i32 {
    open spec fn fits(json: Json) -> bool {
        json matches Json::Number(Some(n)) && i32::MIN <= n <= i32::MAX
    }

    open spec fn read_from(&self, json: Json) -> bool {
        json == Json::Number(Some(*self as i64))
    }

    fn from_json(json: &Json) -> (r: Option<Self>) {
        match json {
            Json::Number(Some(n)) => if -2147483648 <= *n && *n <= 2147483647 {
                Some(*n as i32)
            } else {
                None
            },
            _ => None,
        }
    }
}

impl FromJson for String {
    open spec fn fits(json: Json) -> bool {
        json is Text
    }

    open spec fn read_from(&self, json: Json) -> bool {
        json == Json::Text(*self)
    }

    fn from_json(json: &Json) -> (r: Option<Self>) {
        match json {
            Json::Text(s) => Some(s.clone()),
            _ => None,
        }
    }
}

impl<T: FromJson> FromJson for Vec<T> {
    open spec fn fits(json: Json) -> bool {
        json matches Json::Array(items) && forall|i: int|
            0 <= i < items@.len() ==> T::fits(#[trigger] items@[i])
    }

    open spec fn read_from(&self, json: Json) -> bool {
        json matches Json::Array(items) && self@.len() == items@.len() && forall|i: int|
            0 <= i < items@.len() ==> self@[i].read_from(#[trigger] items@[i])
    }

    fn from_json(json: &Json) -> (r: Option<Self>) {
        match json {
            Json::Array(items) => read_items(items),
            _ => None,
        }
    }
}

/// Reads every item as a `T`, or nothing if one of them has not the shape.
fn read_items<T: FromJson>(items: &Vec<Json>) -> (r: Option<Vec<T>>)
    ensures
        match r {
            Some(values) => {
                &&& values@.len() == items@.len()
                &&& forall|i: int| 0 <= i < items@.len() ==> T::fits(#[trigger] items@[i])
                &&& forall|i: int|
                    0 <= i < items@.len() ==> values@[i].read_from(#[trigger] items@[i])
            },
            None => exists|i: int| 0 <= i < items@.len() && !T::fits(#[trigger] items@[i]),
        },
{
    let mut values: Vec<T> = Vec::new();
    let mut i: usize = 0;
    while i < items.len()
        invariant
            i <= items.len(),
            values@.len() == i,
            forall|k: int| 0 <= k < i ==> T::fits(#[trigger] items@[k]),
            forall|k: int| 0 <= k < i ==> values@[k].read_from(#[trigger] items@[k]),
        decreases items.len() - i,
    {
        match T::from_json(&items[i]) {
            Some(value) => {
                values.push(value);
            },
            None => {
                return None;
            },
        }
        i += 1;
    }
    Some(values)
}

/// Whether `json` is an object whose member `key` has the shape of a `T`.
pub open spec fn has_field<T: FromJson>(json: Json, key: Seq<char>) -> bool {
    json.at(key) matches Some(member) && T::fits(member)
}

/// Whether `value` is what member `key` of the object `json` holds.
pub open spec fn field_holds<T: FromJson>(value: T, json: Json, key: Seq<char>) -> bool {
    json.at(key) matches Some(member) && value.read_from(member)
}

/// Reads member `key` of `json` as a `T`. A missing member, a member of
/// another shape and a document that is no object all give `None`.
pub fn field<T: FromJson>(json: &Json, key: &str) -> (r: Option<T>)
    ensures
        match r {
            Some(value) => has_field::<T>(*json, key@) && field_holds(value, *json, key@),
            None => !has_field::<T>(*json, key@),
        },
{
    match json.get(key) {
        Some(member) => T::from_json(member),
        None => None,
    }
}

} // verus!
