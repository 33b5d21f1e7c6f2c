//! Reading single values out of a JSON document by their place in it.

use vstd::prelude::*;
use vstd::string::*;

verus! {

/// What stands at one place of a JSON document.
#[derive(Debug)]
pub enum Scalar {
    /// An integer that is not negative and fits into 64 bits.
    Number(u64),
    /// A boolean.
    Flag(bool),
    /// A string.
    Text(String),
    /// An array, of which only the length is kept.
    List(usize),
    /// Anything else: null, an object, or a number of another kind.
    Other,
}

/// What stands at one place of a JSON document, as a mathematical value.
pub enum JsonScalar {
    Number(u64),
    Flag(bool),
    Text(Seq<char>),
    List(usize),
    Other,
}

impl View for Scalar {
    type V = JsonScalar;

    open spec fn view(&self) -> JsonScalar {
        match self {
            Scalar::Number(number) => JsonScalar::Number(*number),
            Scalar::Flag(flag) => JsonScalar::Flag(*flag),
            Scalar::Text(text) => JsonScalar::Text(text@),
            Scalar::List(length) => JsonScalar::List(*length),
            Scalar::Other => JsonScalar::Other,
        }
    }
}

/// What stands at the JSON pointer `pointer` in the JSON document `text`;
/// nothing where the text is no document or the pointer leads nowhere in it.
pub uninterp spec fn json_value(text: Seq<char>, pointer: Seq<char>) -> Option<JsonScalar>;

/// Reads what stands at one place of a JSON document. Parses `text` with
/// `serde_json::from_str` and follows `pointer` with `Value::pointer`; gives
/// nothing where either does. A number is kept where `Number::as_u64` reads
/// it. The same text and pointer always give the same value.
#[verifier::external_body]
fn value_at(text: &str, pointer: &str) -> (found: Option<Scalar>)
    ensures
        match found {
            Some(scalar) => json_value(text@, pointer@) == Some(scalar@),
            None => json_value(text@, pointer@).is_none(),
        },
{
    let document: serde_json::Value = serde_json::from_str(text).ok()?;
    Some(
        match document.pointer(pointer)? {
            serde_json::Value::Number(number) => match number.as_u64() {
                Some(number) => Scalar::Number(number),
                None => Scalar::Other,
            },
            serde_json::Value::Bool(flag) => Scalar::Flag(*flag),
            serde_json::Value::String(string) => Scalar::Text(string.clone()),
            serde_json::Value::Array(items) => Scalar::List(items.len()),
            _ => Scalar::Other,
        },
    )
}

/// The unsigned integer at `pointer` in the JSON document `text`, if the
/// text is a document that has one there.
pub open spec fn json_number(text: Seq<char>, pointer: Seq<char>) -> Option<u64> {
    match json_value(text, pointer) {
        Some(JsonScalar::Number(number)) => Some(number),
        _ => None,
    }
}

/// The boolean at `pointer` in the JSON document `text`, if the text is a
/// document that has one there.
pub open spec fn json_flag(text: Seq<char>, pointer: Seq<char>) -> Option<bool> {
    match json_value(text, pointer) {
        Some(JsonScalar::Flag(flag)) => Some(flag),
        _ => None,
    }
}

/// The string at `pointer` in the JSON document `text`, if the text is a
/// document that has one there.
pub open spec fn json_string(text: Seq<char>, pointer: Seq<char>) -> Option<Seq<char>> {
    match json_value(text, pointer) {
        Some(JsonScalar::Text(string)) => Some(string),
        _ => None,
    }
}

/// The length of the array at `pointer` in the JSON document `text`, if the
/// text is a document that has one there.
pub open spec fn json_length(text: Seq<char>, pointer: Seq<char>) -> Option<usize> {
    match json_value(text, pointer) {
        Some(JsonScalar::List(length)) => Some(length),
        _ => None,
    }
}

/// The unsigned integer at `pointer` in the JSON document `text`.
pub fn number_at(text: &str, pointer: &str) -> (found: Option<u64>)
    ensures
        found == json_number(text@, pointer@),
{
    match value_at(text, pointer) {
        Some(Scalar::Number(number)) => Some(number),
        _ => None,
    }
}

/// The boolean at `pointer` in the JSON document `text`.
pub fn flag_at(text: &str, pointer: &str) -> (found: Option<bool>)
    ensures
        found == json_flag(text@, pointer@),
{
    match value_at(text, pointer) {
        Some(Scalar::Flag(flag)) => Some(flag),
        _ => None,
    }
}

/// The string at `pointer` in the JSON document `text`.
pub fn string_at(text: &str, pointer: &str) -> (found: Option<String>)
    ensures
        match found {
            Some(string) => json_string(text@, pointer@) == Some(string@),
            None => json_string(text@, pointer@).is_none(),
        },
{
    match value_at(text, pointer) {
        Some(Scalar::Text(string)) => Some(string),
        _ => None,
    }
}

/// The length of the array at `pointer` in the JSON document `text`.
pub fn length_at(text: &str, pointer: &str) -> (found: Option<usize>)
    ensures
        found == json_length(text@, pointer@),
{
    match value_at(text, pointer) {
        Some(Scalar::List(length)) => Some(length),
        _ => None,
    }
}

} // verus!
