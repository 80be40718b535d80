//! Writing optional fields into a JSON object: a field that holds no value
//! leaves the object untouched.

use vstd::prelude::*;
use crate::json::{
    entries_insert, entries_of, json_of, optional_string, value_bool, value_signed, value_text,
    value_unsigned, with_optional, Entries, Json,
};

verus! {

/// The number document for a count, where there is one.
pub open spec fn optional_count(count: Option<usize>) -> Option<Json> {
    match count {
        Some(n) => Some(Json::unsigned(n as u64)),
        None => None,
    }
}

/// The number document for a signed integer, where there is one.
pub open spec fn optional_signed(number: Option<i32>) -> Option<Json> {
    match number {
        Some(n) => Some(Json::signed(n as i64)),
        None => None,
    }
}

/// The boolean document for a flag, where there is one.
pub open spec fn optional_flag(flag: Option<bool>) -> Option<Json> {
    match flag {
        Some(b) => Some(Json::Bool(b)),
        None => None,
    }
}

/// The document held by a value, where there is one.
pub open spec fn optional_document(value: Option<serde_json::Value>) -> Option<Json> {
    match value {
        Some(v) => Some(json_of(v)),
        None => None,
    }
}

/// Binds `key` to the value, where there is one.
pub fn put_optional(entries: &mut Entries, key: &str, value: Option<serde_json::Value>)
    ensures
        entries_of(*final(entries)) == with_optional(
            entries_of(*old(entries)),
            key@,
            optional_document(value),
        ),
{
    reveal(with_optional);
    match value {
        Some(v) => entries_insert(entries, key, v),
        None => {},
    }
}

/// Binds `key` to the text, where there is one.
pub fn put_optional_text(entries: &mut Entries, key: &str, text: &Option<String>)
    ensures
        entries_of(*final(entries)) == with_optional(
            entries_of(*old(entries)),
            key@,
            optional_string(text.deep_view()),
        ),
{
    let value = match text {
        Some(t) => Some(value_text(t.as_str())),
        None => None,
    };
    put_optional(entries, key, value);
}

/// Binds `key` to the count, where there is one.
pub fn put_optional_count(entries: &mut Entries, key: &str, count: Option<usize>)
    ensures
        entries_of(*final(entries)) == with_optional(
            entries_of(*old(entries)),
            key@,
            optional_count(count),
        ),
{
    let value = match count {
        Some(n) => Some(value_unsigned(n as u64)),
        None => None,
    };
    put_optional(entries, key, value);
}

/// Binds `key` to the signed integer, where there is one.
pub fn put_optional_signed(entries: &mut Entries, key: &str, number: Option<i32>)
    ensures
        entries_of(*final(entries)) == with_optional(
            entries_of(*old(entries)),
            key@,
            optional_signed(number),
        ),
{
    let value = match number {
        Some(n) => Some(value_signed(n as i64)),
        None => None,
    };
    put_optional(entries, key, value);
}

/// Binds `key` to the flag, where there is one.
pub fn put_optional_flag(entries: &mut Entries, key: &str, flag: Option<bool>)
    ensures
        entries_of(*final(entries)) == with_optional(
            entries_of(*old(entries)),
            key@,
            optional_flag(flag),
        ),
{
    let value = match flag {
        Some(b) => Some(value_bool(b)),
        None => None,
    };
    put_optional(entries, key, value);
}

} // verus!
