//! A JSON document as the API responses deliver it.
//!
//! `JsonValue` holds what the decoding logic reads from a parsed response:
//! integers that fit in an `i64`, strings, arrays and objects.  Lookups follow
//! the indexing rules of a JSON value: a missing member, an element past the
//! end, or an index into a value of the wrong kind all read as `null`.

use vstd::prelude::*;

verus! {

/// A parsed JSON value.
pub enum JsonValue {
    Null,
    Bool(bool),
    /// A number that is an integer representable as an `i64`.
    Int(i64),
    /// Any other number (a float, or an integer above `i64::MAX`).
    OtherNumber,
    Str(String),
    Array(Vec<JsonValue>),
    /// The members of an object, in the order they are given.
    Object(Vec<(String, JsonValue)>),
}

/// The value of the first member named `key` among `entries`, if any.
pub open spec fn entry_value(entries: Seq<(String, JsonValue)>, key: Seq<char>) -> Option<JsonValue>
    decreases entries.len(),
{
    if entries.len() == 0 {
        None
    } else if entries[0].0@ == key {
        Some(entries[0].1)
    } else {
        entry_value(entries.drop_first(), key)
    }
}

impl JsonValue {
    /// The integer held, when this is an integer that fits in an `i64`.
    pub open spec fn spec_as_i64(self) -> Option<i64> {
        match self {
            JsonValue::Int(n) => Some(n),
            _ => None,
        }
    }

    /// The characters of the string held, when this is a string.
    pub open spec fn spec_as_str(self) -> Option<Seq<char>> {
        match self {
            JsonValue::Str(s) => Some(s@),
            _ => None,
        }
    }

    /// The elements, when this is an array.
    pub open spec fn spec_as_array(self) -> Option<Seq<JsonValue>> {
        match self {
            JsonValue::Array(v) => Some(v@),
            _ => None,
        }
    }

    /// The member named `key`, when this is an object that has one.
    pub open spec fn spec_get(self, key: Seq<char>) -> Option<JsonValue> {
        match self {
            JsonValue::Object(entries) => entry_value(entries@, key),
            _ => None,
        }
    }

    /// The element at `index`, when this is an array that long.
    pub open spec fn spec_get_index(self, index: int) -> Option<JsonValue> {
        match self {
            JsonValue::Array(v) => if 0 <= index < v@.len() {
                Some(v@[index])
            } else {
                None
            },
            _ => None,
        }
    }
}

/// `value[key]`: the member named `key`, or `null` when there is none.
pub open spec fn member(value: JsonValue, key: Seq<char>) -> JsonValue {
    match value.spec_get(key) {
        Some(v) => v,
        None => JsonValue::Null,
    }
}

/// `value[index]`: the element at `index`, or `null` when there is none.
pub open spec fn element(value: JsonValue, index: int) -> JsonValue {
    match value.spec_get_index(index) {
        Some(v) => v,
        None => JsonValue::Null,
    }
}

/// The value a possibly missing reference stands for: a missing one reads as `null`.
pub open spec fn or_null(value: Option<&JsonValue>) -> JsonValue {
    match value {
        Some(v) => *v,
        None => JsonValue::Null,
    }
}

/// `value[key].as_i64()`.
pub open spec fn i64_at(value: JsonValue, key: Seq<char>) -> Option<i64> {
    member(value, key).spec_as_i64()
}

/// `value[key].as_str()`.
pub open spec fn str_at(value: JsonValue, key: Seq<char>) -> Option<Seq<char>> {
    member(value, key).spec_as_str()
}

/// The view of an optional string.
pub open spec fn opt_str_view(s: Option<String>) -> Option<Seq<char>> {
    match s {
        Some(s) => Some(s@),
        None => None,
    }
}

impl JsonValue {
    /// The integer held, when this is an integer that fits in an `i64`.
    pub fn as_i64(&self) -> (r: Option<i64>)
        ensures
            r == self.spec_as_i64(),
    {
        match self {
            JsonValue::Int(n) => Some(*n),
            _ => None,
        }
    }

    /// The string held, when this is a string.
    pub fn as_str(&self) -> (r: Option<&str>)
        ensures
            match r {
                Some(s) => self.spec_as_str() == Some(s@),
                None => self.spec_as_str() is None,
            },
    {
        match self {
            JsonValue::Str(s) => Some(s.as_str()),
            _ => None,
        }
    }

    /// The elements, when this is an array.
    pub fn as_array(&self) -> (r: Option<&Vec<JsonValue>>)
        ensures
            match r {
                Some(v) => self.spec_as_array() == Some(v@),
                None => self.spec_as_array() is None,
            },
    {
        match self {
            JsonValue::Array(v) => Some(v),
            _ => None,
        }
    }

    /// The member named `key`, when this is an object that has one; the first
    /// such member when the name occurs more than once.
    pub fn get(&self, key: &str) -> (r: Option<&JsonValue>)
        ensures
            match r {
                Some(v) => self.spec_get(key@) == Some(*v),
                None => self.spec_get(key@) is None,
            },
    {
        match self {
            JsonValue::Object(entries) => {
                let k = String::from_str(key);
                let n = entries.len();
                let mut i: usize = 0;
                assert(entries@.skip(0) =~= entries@);
                while i < n
                    invariant
                        n == entries@.len(),
                        0 <= i <= n,
                        k@ == key@,
                        self.spec_get(key@) == entry_value(entries@, key@),
                        entry_value(entries@, key@) == entry_value(entries@.skip(i as int), key@),
                    decreases n - i,
                {
                    assert(entries@.skip(i as int).drop_first() =~= entries@.skip(i + 1));
                    assert(entries@.skip(i as int)[0] == entries@[i as int]);
                    if entries[i].0 == k {
                        return Some(&entries[i].1);
                    }
                    i = i + 1;
                }
                None
            },
            _ => None,
        }
    }

    /// The element at `index`, when this is an array that long.
    pub fn get_index(&self, index: usize) -> (r: Option<&JsonValue>)
        ensures
            match r {
                Some(v) => self.spec_get_index(index as int) == Some(*v),
                None => self.spec_get_index(index as int) is None,
            },
    {
        match self {
            JsonValue::Array(v) => if index < v.len() {
                Some(&v[index])
            } else {
                None
            },
            _ => None,
        }
    }
}

/// `value[key]` on a value that may already stand for `null`.
pub fn member_of<'a>(value: Option<&'a JsonValue>, key: &str) -> (r: Option<&'a JsonValue>)
    ensures
        or_null(r) == member(or_null(value), key@),
{
    match value {
        Some(v) => v.get(key),
        None => None,
    }
}

/// `value[index]` on a value that may already stand for `null`.
pub fn element_of<'a>(value: Option<&'a JsonValue>, index: usize) -> (r: Option<&'a JsonValue>)
    ensures
        or_null(r) == element(or_null(value), index as int),
{
    match value {
        Some(v) => v.get_index(index),
        None => None,
    }
}

/// `value.as_i64()` on a value that may stand for `null`.
pub fn i64_of(value: Option<&JsonValue>) -> (r: Option<i64>)
    ensures
        r == or_null(value).spec_as_i64(),
{
    match value {
        Some(v) => v.as_i64(),
        None => None,
    }
}

/// `value.as_str().to_string()` on a value that may stand for `null`.
pub fn string_of(value: Option<&JsonValue>) -> (r: Option<String>)
    ensures
        opt_str_view(r) == or_null(value).spec_as_str(),
{
    match value {
        Some(v) => match v.as_str() {
            Some(s) => Some(s.to_string()),
            None => None,
        },
        None => None,
    }
}

} // verus!
