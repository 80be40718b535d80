//! Reading typed fields out of a JSON object.
//!
//! Each reader comes with a spec function over the object's fields that says
//! which value or which error it yields; the decoders of the reply types are
//! built from them.

use vstd::prelude::*;
use crate::json::{
    entries_get, entries_of, value_as_str, value_as_u64, value_is_null, Entries, Fields, Json,
    JsonNumber,
};
use crate::lift::views;

verus! {

/// Why a document could not be decoded.
#[derive(Debug, Clone, Copy, PartialEq, Eq)]
pub enum DecodeError {
    /// A required field is absent.
    MissingField,
    /// A value does not have the shape its field requires.
    TypeMismatch,
}

/// The text of the required field `key`.
pub open spec fn required_text(fields: Fields, key: Seq<char>) -> Result<Seq<char>, DecodeError> {
    if !fields.contains_key(key) {
        Err(DecodeError::MissingField)
    } else {
        match fields[key] {
            Json::String(text) => Ok(text),
            _ => Err(DecodeError::TypeMismatch),
        }
    }
}

/// The text of the optional field `key`: absent and `null` both read as no
/// text.
pub open spec fn optional_field_text(fields: Fields, key: Seq<char>) -> Result<
    Option<Seq<char>>,
    DecodeError,
> {
    if !fields.contains_key(key) {
        Ok(None)
    } else {
        match fields[key] {
            Json::Null => Ok(None),
            Json::String(text) => Ok(Some(text)),
            _ => Err(DecodeError::TypeMismatch),
        }
    }
}

/// The count held by the required field `key`: a non-negative integer that
/// fits in `usize`.
pub open spec fn required_count(fields: Fields, key: Seq<char>) -> Result<usize, DecodeError> {
    if !fields.contains_key(key) {
        Err(DecodeError::MissingField)
    } else {
        match fields[key] {
            Json::Number(JsonNumber::PosInt(n)) => if n <= usize::MAX {
                Ok(n as usize)
            } else {
                Err(DecodeError::TypeMismatch)
            },
            _ => Err(DecodeError::TypeMismatch),
        }
    }
}

/// The required field `key`, decoded with `decode`.
pub open spec fn required_field<T>(
    fields: Fields,
    key: Seq<char>,
    decode: spec_fn(Json) -> Result<T, DecodeError>,
) -> Result<T, DecodeError> {
    if !fields.contains_key(key) {
        Err(DecodeError::MissingField)
    } else {
        decode(fields[key])
    }
}

/// The field `key` decoded with `decode`, or `default` where the field is
/// absent.
pub open spec fn defaulted_field<T>(
    fields: Fields,
    key: Seq<char>,
    decode: spec_fn(Json) -> Result<T, DecodeError>,
    default: T,
) -> Result<T, DecodeError> {
    if !fields.contains_key(key) {
        Ok(default)
    } else {
        decode(fields[key])
    }
}

/// The field `key`, an array whose items are decoded one by one with
/// `decode`, or no items where the field is absent.
pub open spec fn defaulted_list<T>(
    fields: Fields,
    key: Seq<char>,
    decode: spec_fn(Json) -> Result<T, DecodeError>,
) -> Result<Seq<T>, DecodeError> {
    if !fields.contains_key(key) {
        Ok(Seq::empty())
    } else {
        match fields[key] {
            Json::Array(items) => decode_each(items, decode),
            _ => Err(DecodeError::TypeMismatch),
        }
    }
}

/// The required field `key`, an array whose items are decoded one by one with
/// `decode`.
pub open spec fn required_list<T>(
    fields: Fields,
    key: Seq<char>,
    decode: spec_fn(Json) -> Result<T, DecodeError>,
) -> Result<Seq<T>, DecodeError> {
    if !fields.contains_key(key) {
        Err(DecodeError::MissingField)
    } else {
        match fields[key] {
            Json::Array(items) => decode_each(items, decode),
            _ => Err(DecodeError::TypeMismatch),
        }
    }
}

/// The documents of `items` decoded one by one with `decode`, in order: all
/// of them where each decodes, and otherwise the error of the first that does
/// not.
pub open spec fn decode_each<T>(
    items: Seq<Json>,
    decode: spec_fn(Json) -> Result<T, DecodeError>,
) -> Result<Seq<T>, DecodeError>
    decreases items.len(),
{
    if items.len() == 0 {
        Ok(Seq::empty())
    } else {
        match decode_each(items.drop_last(), decode) {
            Err(error) => Err(error),
            Ok(front) => match decode(items.last()) {
                Err(error) => Err(error),
                Ok(item) => Ok(front.push(item)),
            },
        }
    }
}

/// What [`decode_each`] yields, item by item: where it succeeds, every item
/// decodes and the outcome holds what each decodes to, in order; where it
/// fails, its error is that of the first item that does not decode.
pub proof fn lemma_decode_each_by_item<T>(
    items: Seq<Json>,
    decode: spec_fn(Json) -> Result<T, DecodeError>,
)
    ensures
        match decode_each(items, decode) {
            Ok(decoded) => decoded.len() == items.len() && forall|i: int|
                0 <= i < items.len() ==> #[trigger] decode(items[i]) == Ok::<T, DecodeError>(
                    decoded[i],
                ),
            Err(error) => exists|i: int|
                0 <= i < items.len() && #[trigger] decode(items[i]) == Err::<T, DecodeError>(
                    error,
                ) && forall|j: int| 0 <= j < i ==> #[trigger] decode(items[j]) is Ok,
        },
    decreases items.len(),
{
    if items.len() > 0 {
        let front = items.drop_last();
        lemma_decode_each_by_item(front, decode);
        match decode_each(front, decode) {
            Ok(decoded) => {
                if decode(items.last()) is Err {
                    let i = items.len() - 1;
                    assert(decode(items[i]) == Err::<T, DecodeError>(
                        decode(items.last())->Err_0,
                    ));
                    assert forall|j: int| 0 <= j < i implies #[trigger] decode(items[j]) is Ok by {
                        assert(items[j] == front[j]);
                    }
                } else {
                    let whole = decoded.push(decode(items.last())->Ok_0);
                    assert forall|i: int| 0 <= i < items.len() implies #[trigger] decode(
                        items[i],
                    ) == Ok::<T, DecodeError>(whole[i]) by {
                        if i < front.len() {
                            assert(items[i] == front[i]);
                        }
                    }
                }
            },
            Err(error) => {
                let i = choose|i: int|
                    0 <= i < front.len() && #[trigger] decode(front[i]) == Err::<T, DecodeError>(
                        error,
                    ) && forall|j: int| 0 <= j < i ==> #[trigger] decode(front[j]) is Ok;
                assert(items[i] == front[i]);
                assert forall|j: int| 0 <= j < i implies #[trigger] decode(items[j]) is Ok by {
                    assert(items[j] == front[j]);
                }
            },
        }
    }
}

/// Once a prefix of `items` fails to decode, so does the whole, with the same
/// error.
pub proof fn lemma_decode_each_keeps_error<T>(
    items: Seq<Json>,
    decode: spec_fn(Json) -> Result<T, DecodeError>,
    n: int,
)
    requires
        0 <= n <= items.len(),
        decode_each(items.take(n), decode) is Err,
    ensures
        decode_each(items, decode) == decode_each(items.take(n), decode),
    decreases items.len(),
{
    if n < items.len() {
        assert(items.drop_last().take(n) == items.take(n));
        lemma_decode_each_keeps_error(items.drop_last(), decode, n);
    } else {
        assert(items.take(n) == items);
    }
}

/// A decoder's outcome, seen through the view of what it decoded.
pub open spec fn outcome_view<T: View>(outcome: Result<T, DecodeError>) -> Result<
    T::V,
    DecodeError,
> {
    match outcome {
        Ok(value) => Ok(value@),
        Err(error) => Err(error),
    }
}

/// The outcome of decoding a list, seen through the views of its items.
pub open spec fn list_outcome_view<T: View>(outcome: Result<Vec<T>, DecodeError>) -> Result<
    Seq<T::V>,
    DecodeError,
> {
    match outcome {
        Ok(items) => Ok(views(items@)),
        Err(error) => Err(error),
    }
}

/// The outcome of reading an optional text, seen through the text's view.
pub open spec fn optional_outcome_view(outcome: Result<Option<String>, DecodeError>) -> Result<
    Option<Seq<char>>,
    DecodeError,
> {
    match outcome {
        Ok(text) => Ok(text.deep_view()),
        Err(error) => Err(error),
    }
}

/// Reads the required text field `key`.
pub fn read_text(entries: &Entries, key: &str) -> (read: Result<String, DecodeError>)
    ensures
        outcome_view(read) == required_text(entries_of(*entries), key@),
{
    match entries_get(entries, key) {
        None => Err(DecodeError::MissingField),
        Some(value) => match value_as_str(value) {
            Some(text) => Ok(text.to_owned()),
            None => Err(DecodeError::TypeMismatch),
        },
    }
}

/// Reads the optional text field `key`.
pub fn read_optional_text(entries: &Entries, key: &str) -> (read: Result<
    Option<String>,
    DecodeError,
>)
    ensures
        optional_outcome_view(read) == optional_field_text(entries_of(*entries), key@),
{
    match entries_get(entries, key) {
        None => Ok(None),
        Some(value) => {
            if value_is_null(value) {
                Ok(None)
            } else {
                match value_as_str(value) {
                    Some(text) => Ok(Some(text.to_owned())),
                    None => Err(DecodeError::TypeMismatch),
                }
            }
        },
    }
}

/// Reads the required count field `key`.
pub fn read_count(entries: &Entries, key: &str) -> (read: Result<usize, DecodeError>)
    ensures
        read == required_count(entries_of(*entries), key@),
{
    match entries_get(entries, key) {
        None => Err(DecodeError::MissingField),
        Some(value) => match value_as_u64(value) {
            Some(n) => {
                if n <= usize::MAX as u64 {
                    Ok(n as usize)
                } else {
                    Err(DecodeError::TypeMismatch)
                }
            },
            None => Err(DecodeError::TypeMismatch),
        },
    }
}

} // verus!
