//! JSON documents: a mathematical model of them, and the `serde_json`
//! operations the rest of the crate builds on.
//!
//! `serde_json::Value` is opaque to the verifier. What a value holds is named
//! by [`json_of`], what a `serde_json::Map` holds by [`entries_of`]; every
//! operation on them is a small function whose contract restates, over those
//! names, what `serde_json` does. Those contracts are believed, not proved:
//! each one says which `serde_json` item it stands for.

use vstd::prelude::*;

verus! {

/// A JSON number as `serde_json` stores it: a non-negative integer, a negative
/// integer, or a finite float (kept here as its IEEE-754 bits).
pub enum JsonNumber {
    PosInt(u64),
    NegInt(i64),
    Float(u64),
}

/// The fields of a JSON object: a map from keys to documents.
pub type Fields = Map<Seq<char>, Json>;

/// The mathematical model of a JSON document.
///
/// Objects are maps from keys to documents: the order of keys is not part of
/// the model.
pub enum Json {
    Null,
    Bool(bool),
    Number(JsonNumber),
    String(Seq<char>),
    Array(Seq<Json>),
    Object(Fields),
}

impl Json {
    /// The number document for an unsigned integer.
    pub open spec fn unsigned(n: u64) -> Json {
        Json::Number(JsonNumber::PosInt(n))
    }

    /// The number document for a signed integer.
    pub open spec fn signed(n: i64) -> Json {
        if n < 0 {
            Json::Number(JsonNumber::NegInt(n))
        } else {
            Json::Number(JsonNumber::PosInt(n as u64))
        }
    }
}

/// The string document for a text, where there is one.
pub open spec fn optional_string(text: Option<Seq<char>>) -> Option<Json> {
    match text {
        Some(t) => Some(Json::String(t)),
        None => None,
    }
}

/// The array document of `items`, unless there are none.
pub open spec fn non_empty_array(items: Seq<Json>) -> Option<Json> {
    if items.len() == 0 {
        None
    } else {
        Some(Json::Array(items))
    }
}

/// `fields` with `key` bound to `value` when there is one, and `fields`
/// unchanged when there is none: how an optional field reaches the wire.
#[verifier::opaque]
pub open spec fn with_optional(fields: Fields, key: Seq<char>, value: Option<Json>) -> Fields {
    match value {
        Some(document) => fields.insert(key, document),
        None => fields,
    }
}

/// What [`with_optional`] does to a lookup: `key` is bound to `value` when
/// there is one and as before when there is none, and every other key is bound
/// as before.
pub proof fn lemma_with_optional(fields: Fields, key: Seq<char>, value: Option<Json>)
    ensures
        with_optional(fields, key, value).contains_key(key) <==> value is Some
            || fields.contains_key(key),
        value matches Some(document) ==> with_optional(fields, key, value)[key] == document,
        value is None ==> with_optional(fields, key, value) == fields,
        forall|other: Seq<char>|
            other != key ==> (#[trigger] with_optional(fields, key, value).contains_key(other)
                <==> fields.contains_key(other)),
        forall|other: Seq<char>|
            other != key ==> #[trigger] with_optional(fields, key, value)[other] == fields[other],
{
    reveal(with_optional);
}

/// `serde_json::Value`, taken as it is: nothing of its inside is visible here.
#[verifier::external_type_specification]
#[verifier::external_body]
pub struct ExValue(serde_json::Value);

/// `serde_json::Map`, taken as it is: nothing of its inside is visible here.
#[verifier::external_type_specification]
#[verifier::external_body]
#[verifier::reject_recursive_types(K)]
#[verifier::reject_recursive_types(V)]
pub struct ExEntries<K, V>(serde_json::Map<K, V>);

/// `serde_json::Error`, taken as it is: it is passed on and never looked into.
#[verifier::external_type_specification]
#[verifier::external_body]
pub struct ExSyntaxError(serde_json::Error);

/// A JSON object's entries, as `serde_json` holds them.
pub type Entries = serde_json::Map<String, serde_json::Value>;

/// The document that a `serde_json::Value` holds.
pub uninterp spec fn json_of(value: serde_json::Value) -> Json;

/// The fields that a `serde_json::Map` holds.
pub uninterp spec fn entries_of(entries: Entries) -> Fields;

/// The bytes that `serde_json::to_vec` writes for a value holding `document`
/// (compact JSON text, the keys of each object in sorted order), or `None`
/// where it reports a failure.
pub uninterp spec fn document_bytes(document: Json) -> Option<Seq<u8>>;

/// The document that `serde_json::from_slice` reads from `bytes`, or `None`
/// where it rejects them.
pub uninterp spec fn parsed_document(bytes: Seq<u8>) -> Option<Json>;

/// The documents held by a sequence of values, in order.
pub open spec fn documents(values: Seq<serde_json::Value>) -> Seq<Json> {
    values.map_values(|value: serde_json::Value| json_of(value))
}

/// `Value::from(bool)`: the value is `Value::Bool(b)`.
#[verifier::external_body]
pub(crate) fn value_bool(b: bool) -> (value: serde_json::Value)
    ensures
        json_of(value) == Json::Bool(b),
{
    serde_json::Value::from(b)
}

/// `Value::from(u64)`: the value is a number holding the non-negative integer
/// `n`.
#[verifier::external_body]
pub(crate) fn value_unsigned(n: u64) -> (value: serde_json::Value)
    ensures
        json_of(value) == Json::unsigned(n),
{
    serde_json::Value::from(n)
}

/// `Value::from(i64)`: the value is a number holding `n`, stored as a negative
/// integer when `n < 0` and as a non-negative one otherwise.
#[verifier::external_body]
pub(crate) fn value_signed(n: i64) -> (value: serde_json::Value)
    ensures
        json_of(value) == Json::signed(n),
{
    serde_json::Value::from(n)
}

/// `Value::from(&str)`: the value is `Value::String` with a copy of `text`.
#[verifier::external_body]
pub(crate) fn value_text(text: &str) -> (value: serde_json::Value)
    ensures
        json_of(value) == Json::String(text@),
{
    serde_json::Value::from(text)
}

/// `Value::Array`: the value is the array of `items`, in their order.
#[verifier::external_body]
pub(crate) fn value_array(items: Vec<serde_json::Value>) -> (value: serde_json::Value)
    ensures
        json_of(value) == Json::Array(documents(items@)),
{
    serde_json::Value::Array(items)
}

/// `Value::Object`: the value is the object with the entries of `entries`.
#[verifier::external_body]
pub(crate) fn value_object(entries: Entries) -> (value: serde_json::Value)
    ensures
        json_of(value) == Json::Object(entries_of(entries)),
{
    serde_json::Value::Object(entries)
}

/// `<Value as Clone>::clone`: the copy holds the same document.
#[verifier::external_body]
pub(crate) fn value_clone(value: &serde_json::Value) -> (copy: serde_json::Value)
    ensures
        json_of(copy) == json_of(*value),
{
    value.clone()
}

/// `Map::new`: a map without entries.
#[verifier::external_body]
pub(crate) fn entries_new() -> (entries: Entries)
    ensures
        entries_of(entries) == Fields::empty(),
{
    serde_json::Map::new()
}

/// `Map::insert`: afterwards `key` is bound to `value`, replacing what it was
/// bound to before, and every other key is bound as before.
#[verifier::external_body]
pub(crate) fn entries_insert(entries: &mut Entries, key: &str, value: serde_json::Value)
    ensures
        entries_of(*final(entries)) == entries_of(*old(entries)).insert(key@, json_of(value)),
{
    entries.insert(key.to_owned(), value);
}

/// `Map::get`: the value bound to `key`, or `None` where the map holds no such
/// key.
#[verifier::external_body]
pub(crate) fn entries_get<'a>(entries: &'a Entries, key: &str) -> (found: Option<
    &'a serde_json::Value,
>)
    ensures
        match found {
            Some(value) => entries_of(*entries).contains_key(key@) && json_of(*value)
                == entries_of(*entries)[key@],
            None => !entries_of(*entries).contains_key(key@),
        },
{
    entries.get(key)
}

/// `Value::as_object`: the entries of an object, `None` for any other value.
#[verifier::external_body]
pub(crate) fn value_as_object<'a>(value: &'a serde_json::Value) -> (found: Option<&'a Entries>)
    ensures
        match found {
            Some(entries) => json_of(*value) == Json::Object(entries_of(*entries)),
            None => !(json_of(*value) is Object),
        },
{
    value.as_object()
}

/// `Value::as_array`: the items of an array, `None` for any other value.
#[verifier::external_body]
pub(crate) fn value_as_array<'a>(value: &'a serde_json::Value) -> (found: Option<
    &'a Vec<serde_json::Value>,
>)
    ensures
        match found {
            Some(items) => json_of(*value) == Json::Array(documents(items@)),
            None => !(json_of(*value) is Array),
        },
{
    value.as_array()
}

/// `Value::as_str`: the text of a string, `None` for any other value.
#[verifier::external_body]
pub(crate) fn value_as_str<'a>(value: &'a serde_json::Value) -> (found: Option<&'a str>)
    ensures
        match found {
            Some(text) => json_of(*value) == Json::String(text@),
            None => !(json_of(*value) is String),
        },
{
    value.as_str()
}

/// `Value::as_u64`: the integer of a number stored as a non-negative integer,
/// `None` for a negative integer, a float, or a value that is no number.
#[verifier::external_body]
pub(crate) fn value_as_u64(value: &serde_json::Value) -> (found: Option<u64>)
    ensures
        match found {
            Some(n) => json_of(*value) == Json::unsigned(n),
            None => !(json_of(*value) matches Json::Number(JsonNumber::PosInt(_))),
        },
{
    value.as_u64()
}

/// `Value::is_null`: whether the value is `Value::Null`.
#[verifier::external_body]
pub(crate) fn value_is_null(value: &serde_json::Value) -> (null: bool)
    ensures
        null == (json_of(*value) is Null),
{
    value.is_null()
}

/// `serde_json::to_vec` on a value: it writes into memory only, so whether it
/// succeeds and what it writes rest on the document the value holds, and on
/// nothing else. It succeeds exactly where [`document_bytes`] names bytes for
/// that document, and the bytes are those.
#[verifier::external_body]
pub(crate) fn value_to_bytes(value: &serde_json::Value) -> (written: Result<
    Vec<u8>,
    serde_json::Error,
>)
    ensures
        match written {
            Ok(bytes) => document_bytes(json_of(*value)) == Some(bytes@),
            Err(_) => document_bytes(json_of(*value)) is None,
        },
{
    serde_json::to_vec(value)
}

/// `serde_json::from_slice` at type `Value`: it succeeds exactly on the bytes
/// for which [`parsed_document`] names a document, and the value holds that
/// document.
#[verifier::external_body]
pub(crate) fn value_from_bytes(bytes: &[u8]) -> (read: Result<serde_json::Value, serde_json::Error>)
    ensures
        match read {
            Ok(value) => parsed_document(bytes@) == Some(json_of(value)),
            Err(_) => parsed_document(bytes@) is None,
        },
{
    serde_json::from_slice(bytes)
}

} // verus!
