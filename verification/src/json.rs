//! A JSON document as plain values, with the lookups the backend performs on
//! Spotify replies and on socket requests (the `serde_json::Value` accessors
//! `get`, `as_str`, `as_u64`, `as_i64`, `as_bool` and `as_array`).
use vstd::prelude::*;

use crate::text::str_eq;

verus! {

/// A JSON number as serde_json keeps it: a non-negative integer, a negative
/// integer, or a float (held by its IEEE-754 bit pattern).
#[derive(Clone, Copy, Debug, PartialEq, Eq, Structural)]
pub enum JsonNumber {
    PosInt(u64),
    NegInt(i64),
    Float(u64),
}

/// A JSON value. An object keeps its members in order; a key is looked up at
/// its first occurrence.
#[derive(Debug)]
pub enum JsonValue {
    Null,
    Bool(bool),
    Number(JsonNumber),
    Str(String),
    Array(Vec<JsonValue>),
    Object(Vec<(String, JsonValue)>),
}

/// The value stored under `key` at its first occurrence among `entries`.
pub open spec fn entry_for(entries: Seq<(String, JsonValue)>, key: Seq<char>) -> Option<JsonValue>
    decreases entries.len(),
{
    if entries.len() == 0 {
        None
    } else if entries[0].0@ == key {
        Some(entries[0].1)
    } else {
        entry_for(entries.drop_first(), key)
    }
}

impl JsonValue {
    /// `Value::get(key)`: the member `key` of an object; nothing for other values.
    pub open spec fn field(self, key: Seq<char>) -> Option<JsonValue> {
        match self {
            JsonValue::Object(entries) => entry_for(entries@, key),
            _ => None,
        }
    }

    /// `Value::as_str`.
    pub open spec fn text(self) -> Option<Seq<char>> {
        match self {
            JsonValue::Str(s) => Some(s@),
            _ => None,
        }
    }

    /// `Value::as_u64`: a non-negative integer.
    pub open spec fn unsigned(self) -> Option<u64> {
        match self {
            JsonValue::Number(JsonNumber::PosInt(n)) => Some(n),
            _ => None,
        }
    }

    /// `Value::as_i64`: an integer that fits in `i64`.
    pub open spec fn signed(self) -> Option<i64> {
        match self {
            JsonValue::Number(JsonNumber::PosInt(n)) => if n <= i64::MAX as u64 {
                Some(n as i64)
            } else {
                None
            },
            JsonValue::Number(JsonNumber::NegInt(n)) => Some(n),
            _ => None,
        }
    }

    /// `Value::as_bool`.
    pub open spec fn boolean(self) -> Option<bool> {
        match self {
            JsonValue::Bool(b) => Some(b),
            _ => None,
        }
    }

    /// `Value::as_number` (the number behind `as_f64`).
    pub open spec fn number(self) -> Option<JsonNumber> {
        match self {
            JsonValue::Number(n) => Some(n),
            _ => None,
        }
    }

    /// `Value::as_array` followed by `first()`.
    pub open spec fn first_element(self) -> Option<JsonValue> {
        match self {
            JsonValue::Array(items) => if items@.len() > 0 {
                Some(items@[0])
            } else {
                None
            },
            _ => None,
        }
    }

    /// The member `key` of an object.
    pub fn get(&self, key: &str) -> (r: Option<&JsonValue>)
        ensures
            match r {
                Some(v) => self.field(key@) == Some(*v),
                None => self.field(key@) is None,
            },
    {
        match self {
            JsonValue::Object(entries) => {
                let mut i: usize = 0;
                assert(entries@.skip(0) =~= entries@);
                while i < entries.len()
                    invariant
                        i <= entries@.len(),
                        self.field(key@) == entry_for(entries@, key@),
                        entry_for(entries@, key@) == entry_for(entries@.skip(i as int), key@),
                    decreases entries.len() - i,
                {
                    proof {
                        assert(entries@.skip(i as int).drop_first() =~= entries@.skip(i + 1));
                    }
                    assert(entries@.skip(i as int)[0] == entries@[i as int]);
                    if str_eq(entries[i].0.as_str(), key) {
                        return Some(&entries[i].1);
                    }
                    i += 1;
                }
                assert(entries@.skip(i as int).len() == 0);
                None
            },
            _ => None,
        }
    }

    /// The text of a string value.
    pub fn as_str(&self) -> (r: Option<&String>)
        ensures
            match r {
                Some(s) => self.text() == Some(s@),
                None => self.text() is None,
            },
    {
        match self {
            JsonValue::Str(s) => Some(s),
            _ => None,
        }
    }

    /// A non-negative integer value.
    pub fn as_u64(&self) -> (r: Option<u64>)
        ensures
            r == self.unsigned(),
    {
        match self {
            JsonValue::Number(JsonNumber::PosInt(n)) => Some(*n),
            _ => None,
        }
    }

    /// An integer value that fits in `i64`.
    pub fn as_i64(&self) -> (r: Option<i64>)
        ensures
            r == self.signed(),
    {
        match self {
            JsonValue::Number(JsonNumber::PosInt(n)) => {
                if *n <= i64::MAX as u64 {
                    Some(*n as i64)
                } else {
                    None
                }
            },
            JsonValue::Number(JsonNumber::NegInt(n)) => Some(*n),
            _ => None,
        }
    }

    /// A boolean value.
    pub fn as_bool(&self) -> (r: Option<bool>)
        ensures
            r == self.boolean(),
    {
        match self {
            JsonValue::Bool(b) => Some(*b),
            _ => None,
        }
    }

    /// A number value.
    pub fn as_number(&self) -> (r: Option<JsonNumber>)
        ensures
            r == self.number(),
    {
        match self {
            JsonValue::Number(n) => Some(*n),
            _ => None,
        }
    }

    /// The first element of an array value.
    pub fn first(&self) -> (r: Option<&JsonValue>)
        ensures
            match r {
                Some(v) => self.first_element() == Some(*v),
                None => self.first_element() is None,
            },
    {
        match self {
            JsonValue::Array(items) => {
                if items.len() > 0 {
                    Some(&items[0])
                } else {
                    None
                }
            },
            _ => None,
        }
    }
}

/// `o.and_then(|v| v.get(key))`.
pub open spec fn field_of(o: Option<JsonValue>, key: Seq<char>) -> Option<JsonValue> {
    match o {
        Some(v) => v.field(key),
        None => None,
    }
}

/// `o.and_then(|v| v.as_array()).and_then(|a| a.first())`.
pub open spec fn first_of(o: Option<JsonValue>) -> Option<JsonValue> {
    match o {
        Some(v) => v.first_element(),
        None => None,
    }
}

/// `o.and_then(|v| v.as_str()).unwrap_or("")`.
pub open spec fn text_or_empty(o: Option<JsonValue>) -> Seq<char> {
    match o {
        Some(v) => match v.text() {
            Some(s) => s,
            None => Seq::empty(),
        },
        None => Seq::empty(),
    }
}

/// `o.and_then(|v| v.as_i64()).unwrap_or(d)`.
pub open spec fn signed_or(o: Option<JsonValue>, d: i64) -> i64 {
    match o {
        Some(v) => match v.signed() {
            Some(n) => n,
            None => d,
        },
        None => d,
    }
}

/// `o.and_then(|v| v.get(key))` on references.
pub fn get_in<'a>(o: Option<&'a JsonValue>, key: &str) -> (r: Option<&'a JsonValue>)
    ensures
        match r {
            Some(v) => field_of(opt_value(o), key@) == Some(*v),
            None => field_of(opt_value(o), key@) is None,
        },
{
    match o {
        Some(v) => v.get(key),
        None => None,
    }
}

/// `o.and_then(|v| v.as_array()).and_then(|a| a.first())` on references.
pub fn first_in<'a>(o: Option<&'a JsonValue>) -> (r: Option<&'a JsonValue>)
    ensures
        match r {
            Some(v) => first_of(opt_value(o)) == Some(*v),
            None => first_of(opt_value(o)) is None,
        },
{
    match o {
        Some(v) => v.first(),
        None => None,
    }
}

/// The value an optional reference points to.
pub open spec fn opt_value(o: Option<&JsonValue>) -> Option<JsonValue> {
    match o {
        Some(v) => Some(*v),
        None => None,
    }
}

/// `o.and_then(|v| v.as_str()).unwrap_or("")`, as an owned string.
pub fn text_in(o: Option<&JsonValue>) -> (r: String)
    ensures
        r@ == text_or_empty(opt_value(o)),
{
    match o {
        Some(v) => match v.as_str() {
            Some(s) => s.clone(),
            None => String::new(),
        },
        None => String::new(),
    }
}

/// `o.and_then(|v| v.as_i64()).unwrap_or(d)`.
pub fn signed_in(o: Option<&JsonValue>, d: i64) -> (r: i64)
    ensures
        r == signed_or(opt_value(o), d),
{
    match o {
        Some(v) => match v.as_i64() {
            Some(n) => n,
            None => d,
        },
        None => d,
    }
}

} // verus!
