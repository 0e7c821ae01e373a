//! What this library has from `serde_json`: a text is parsed, a member of
//! the value is looked up by its key, and a value that is a string gives its
//! text. A value is opaque here; what the three calls return goes by name.

use vstd::prelude::*;

verus! {

/// A JSON value of `serde_json`. Nothing inside it is visible here.
#[verifier::external_type_specification]
#[verifier::external_body]
pub struct ExValue(serde_json::Value);

/// The error that `serde_json` gives for a text that it cannot parse.
#[verifier::external_type_specification]
#[verifier::external_body]
pub struct ExJsonError(serde_json::Error);

/// The value that `serde_json::from_str` parses from a text; none where it
/// gives an error.
pub uninterp spec fn parsed(text: Seq<char>) -> Option<serde_json::Value>;

/// The value that `serde_json::Value::get` finds under a key; none where the
/// value is no object, or has no member with that key.
pub uninterp spec fn member_of(value: serde_json::Value, key: Seq<char>) -> Option<
    serde_json::Value,
>;

/// The text that `serde_json::Value::as_str` gives for a value; none where
/// the value is no string.
pub uninterp spec fn string_of(value: serde_json::Value) -> Option<Seq<char>>;

/// `serde_json::from_str`, asked for a `Value`, parses one JSON text. The
/// same text gives the same value, or an error each time.
#[verifier::external_body]
pub(crate) fn parse(text: &str) -> (r: Result<serde_json::Value, serde_json::Error>)
    ensures
        match r {
            Ok(value) => parsed(text@) == Some(value),
            Err(_) => parsed(text@) is None,
        },
{
    serde_json::from_str::<serde_json::Value>(text)
}

/// `serde_json::Value::get`, with a string as the index, looks a member of
/// an object up by its key.
#[verifier::external_body]
pub(crate) fn member<'a>(value: &'a serde_json::Value, key: &str) -> (r: Option<
    &'a serde_json::Value,
>)
    ensures
        match r {
            Some(found) => member_of(*value, key@) == Some(*found),
            None => member_of(*value, key@) is None,
        },
{
    value.get(key)
}

/// `serde_json::Value::as_str` gives the text of a value that is a string.
#[verifier::external_body]
pub(crate) fn as_text<'a>(value: &'a serde_json::Value) -> (r: Option<&'a str>)
    ensures
        match r {
            Some(text) => string_of(*value) == Some(text@),
            None => string_of(*value) is None,
        },
{
    value.as_str()
}

} // verus!
