//! A JSON document as the protocol decoders read it, with the lookups they
//! use. Objects keep their members in order; a lookup finds the first member
//! with the key.
use vstd::prelude::*;
use crate::text::{decimal, decimal_text, same_text};

verus! {

/// A JSON value. Numbers are told apart only as far as the decoders need:
/// non-negative integers that fit in 64 bits, and all others.
#[derive(Debug, PartialEq, Eq)]
pub enum JsonValue {
    Null,
    Bool(bool),
    Unsigned(u64),
    OtherNumber,
    Text(String),
    Array(Vec<JsonValue>),
    Object(Vec<(String, JsonValue)>),
}

/// The first member of `members` with the key `key`.
pub open spec fn member(members: Seq<(String, JsonValue)>, key: Seq<char>) -> Option<JsonValue>
    decreases members.len(),
{
    if members.len() == 0 {
        None
    } else if members[0].0@ == key {
        Some(members[0].1)
    } else {
        member(members.drop_first(), key)
    }
}

impl JsonValue {
    /// The member `key` of an object; nothing for other values.
    pub open spec fn spec_get(self, key: Seq<char>) -> Option<JsonValue> {
        match self {
            JsonValue::Object(members) => member(members@, key),
            _ => None,
        }
    }

    /// The items of an array.
    pub open spec fn spec_as_array(self) -> Option<Seq<JsonValue>> {
        match self {
            JsonValue::Array(items) => Some(items@),
            _ => None,
        }
    }

    /// The text of a string.
    pub open spec fn spec_as_str(self) -> Option<Seq<char>> {
        match self {
            JsonValue::Text(text) => Some(text@),
            _ => None,
        }
    }

    /// The value of a boolean.
    pub open spec fn spec_as_bool(self) -> Option<bool> {
        match self {
            JsonValue::Bool(value) => Some(value),
            _ => None,
        }
    }

    /// An identifier given as a string, or as a number written in decimal.
    pub open spec fn spec_string_value(self) -> Option<Seq<char>> {
        match self {
            JsonValue::Text(text) => Some(text@),
            JsonValue::Unsigned(number) => Some(decimal(number as nat)),
            _ => None,
        }
    }

    /// The member `key` of an object; nothing for other values.
    pub fn get(&self, key: &str) -> (r: Option<&JsonValue>)
        ensures
            match r {
                Some(value) => self.spec_get(key@) == Some(*value),
                None => self.spec_get(key@) is None,
            },
    {
        match self {
            JsonValue::Object(members) => {
                let mut i: usize = 0;
                assert(members@.skip(0) =~= members@);
                while i < members.len()
                    invariant
                        0 <= i <= members@.len(),
                        self.spec_get(key@) == member(members@, key@),
                        member(members@, key@) == member(members@.skip(i as int), key@),
                    decreases members@.len() - i,
                {
                    assert(members@.skip(i as int)[0] == members@[i as int]);
                    assert(members@.skip(i as int).len() > 0);
                    if same_text(members[i].0.as_str(), key) {
                        return Some(&members[i].1);
                    }
                    assert(members@.skip(i as int).drop_first() =~= members@.skip(i + 1));
                    i = i + 1;
                }
                None
            },
            _ => None,
        }
    }

    /// The items of an array.
    pub fn as_array(&self) -> (r: Option<&Vec<JsonValue>>)
        ensures
            match r {
                Some(items) => self.spec_as_array() == Some(items@),
                None => self.spec_as_array() is None,
            },
    {
        match self {
            JsonValue::Array(items) => Some(items),
            _ => None,
        }
    }

    /// Whether the value is an object.
    pub fn is_object(&self) -> (r: bool)
        ensures
            r == (*self is Object),
    {
        match self {
            JsonValue::Object(_) => true,
            _ => false,
        }
    }

    /// Whether the value is null.
    pub fn is_null(&self) -> (r: bool)
        ensures
            r == (*self is Null),
    {
        match self {
            JsonValue::Null => true,
            _ => false,
        }
    }

    /// The text of a string.
    pub fn as_str(&self) -> (r: Option<&str>)
        ensures
            match r {
                Some(text) => self.spec_as_str() == Some(text@),
                None => self.spec_as_str() is None,
            },
    {
        match self {
            JsonValue::Text(text) => Some(text.as_str()),
            _ => None,
        }
    }

    /// The value of a boolean.
    pub fn as_bool(&self) -> (r: Option<bool>)
        ensures
            r == self.spec_as_bool(),
    {
        match self {
            JsonValue::Bool(value) => Some(*value),
            _ => None,
        }
    }

    /// An identifier given as a string, or as a number written in decimal.
    pub fn string_value(&self) -> (r: Option<String>)
        ensures
            match r {
                Some(text) => self.spec_string_value() == Some(text@),
                None => self.spec_string_value() is None,
            },
    {
        match self {
            JsonValue::Text(text) => Some(text.clone()),
            JsonValue::Unsigned(number) => Some(decimal_text(*number)),
            _ => None,
        }
    }
}

/// The first present value of two lookups: `first`, else `second`.
pub open spec fn either(first: Option<JsonValue>, second: Option<JsonValue>) -> Option<JsonValue> {
    match first {
        Some(value) => Some(value),
        None => second,
    }
}

} // verus!
