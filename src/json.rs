//! A JSON document as the extraction logic reads it.

use vstd::prelude::*;
use vstd::string::*;

verus! {

/// A JSON value. Numbers that fit `i64` are kept as `Int`; any other number
/// is `Number`, whose value the logic never reads.
pub enum JsonValue {
    Null,
    Bool(bool),
    Int(i64),
    Number,
    Str(String),
    Array(Vec<JsonValue>),
    Object(Vec<(String, JsonValue)>),
}

/// The value under the first entry named `key`, from position `i` on.
pub open spec fn entry_from(entries: Seq<(String, JsonValue)>, key: Seq<char>, i: int) -> Option<
    JsonValue,
>
    decreases entries.len() - i,
{
    if i < 0 || i >= entries.len() {
        None
    } else if entries[i].0@ == key {
        Some(entries[i].1)
    } else {
        entry_from(entries, key, i + 1)
    }
}

/// The member `key` of `v`, where `v` is an object that has one.
pub open spec fn field(v: JsonValue, key: Seq<char>) -> Option<JsonValue> {
    match v {
        JsonValue::Object(entries) => entry_from(entries@, key, 0),
        _ => None,
    }
}

/// `field`, applied to a value that may be absent.
pub open spec fn at(v: Option<JsonValue>, key: Seq<char>) -> Option<JsonValue> {
    match v {
        Some(x) => field(x, key),
        None => None,
    }
}

/// The element `i` of `v`, where `v` is an array that long.
pub open spec fn element(v: Option<JsonValue>, i: int) -> Option<JsonValue> {
    match v {
        Some(JsonValue::Array(xs)) => if 0 <= i < xs@.len() {
            Some(xs@[i])
        } else {
            None
        },
        _ => None,
    }
}

/// The text of `v`, where `v` is a string.
pub open spec fn text_of(v: Option<JsonValue>) -> Option<Seq<char>> {
    match v {
        Some(JsonValue::Str(s)) => Some(s@),
        _ => None,
    }
}

/// The integer of `v`, where `v` is a number that fits `i64`.
pub open spec fn int_of(v: Option<JsonValue>) -> Option<i64> {
    match v {
        Some(JsonValue::Int(n)) => Some(n),
        _ => None,
    }
}

pub open spec fn opt_deref(o: Option<&JsonValue>) -> Option<JsonValue> {
    match o {
        Some(x) => Some(*x),
        None => None,
    }
}

/// Looks up the member `key` of `v`.
pub fn get<'a>(v: Option<&'a JsonValue>, key: &str) -> (r: Option<&'a JsonValue>)
    ensures
        opt_deref(r) == at(opt_deref(v), key@),
{
    match v {
        Some(JsonValue::Object(entries)) => {
            let k = String::from_str(key);
            let mut i: usize = 0;
            while i < entries.len()
                invariant
                    i <= entries@.len(),
                    k@ == key@,
                    opt_deref(v) == Some(JsonValue::Object(*entries)),
                    entry_from(entries@, key@, 0) == entry_from(entries@, key@, i as int),
                decreases entries@.len() - i,
            {
                if entries[i].0 == k {
                    return Some(&entries[i].1);
                }
                i = i + 1;
            }
            None
        },
        _ => None,
    }
}

/// Looks up the element `i` of `v`.
pub fn get_index<'a>(v: Option<&'a JsonValue>, i: usize) -> (r: Option<&'a JsonValue>)
    ensures
        opt_deref(r) == element(opt_deref(v), i as int),
{
    match v {
        Some(JsonValue::Array(xs)) => if i < xs.len() {
            Some(&xs[i])
        } else {
            None
        },
        _ => None,
    }
}

/// The text of `v`, where `v` is a string.
pub fn as_text<'a>(v: Option<&'a JsonValue>) -> (r: Option<&'a String>)
    ensures
        match r {
            Some(s) => text_of(opt_deref(v)) == Some(s@),
            None => text_of(opt_deref(v)).is_none(),
        },
{
    match v {
        Some(JsonValue::Str(s)) => Some(s),
        _ => None,
    }
}

/// The integer of `v`, where `v` is a number that fits `i64`.
pub fn as_int(v: Option<&JsonValue>) -> (r: Option<i64>)
    ensures
        r == int_of(opt_deref(v)),
{
    match v {
        Some(JsonValue::Int(n)) => Some(*n),
        _ => None,
    }
}

} // verus!
