//! JSON values, as the `serde_json` crate reads, holds and builds them.
//!
//! A value is known here by its compact JSON text, an object under
//! construction by its members.

use vstd::prelude::*;

verus! {

/// A JSON value of any kind.
#[verifier::external_type_specification]
#[verifier::external_body]
pub struct ExJsonValue(serde_json::Value);

/// The members of a JSON object.
#[verifier::external_type_specification]
#[verifier::external_body]
#[verifier::reject_recursive_types(K)]
#[verifier::reject_recursive_types(V)]
pub struct ExJsonMap<K, V>(serde_json::Map<K, V>);

/// What a JSON value holds, as the compact JSON text that `serde_json`
/// writes for it.
pub uninterp spec fn json_text(value: serde_json::Value) -> Seq<char>;

/// What reading `text` as one JSON value comes to: the compact text of the
/// value read, or the text of the error that `serde_json` reports.
pub uninterp spec fn json_parse(text: Seq<char>) -> Result<Seq<char>, Seq<char>>;

/// The string that the JSON value with the compact text `document` holds
/// under `key`: present where the value is an object with a member of that
/// name whose value is a string.
pub uninterp spec fn json_string_member(document: Seq<char>, key: Seq<char>) -> Option<Seq<char>>;

/// The members of a JSON object by name: the string that a member holds,
/// or nothing for a member that is not a string.
pub uninterp spec fn object_members(
    object: serde_json::Map<String, serde_json::Value>,
) -> Map<Seq<char>, Option<Seq<char>>>;

/// Reads `text` as one JSON value with `serde_json::from_str`. A failure
/// gives the error's own text. The outcome depends on the text alone.
#[verifier::external_body]
pub(crate) fn parse(text: &str) -> (r: Result<serde_json::Value, String>)
    ensures
        match r {
            Ok(value) => json_parse(text@) == Ok::<Seq<char>, Seq<char>>(json_text(value)),
            Err(e) => json_parse(text@) == Err::<Seq<char>, Seq<char>>(e@),
        },
{
    match serde_json::from_str::<serde_json::Value>(text) {
        Ok(value) => Ok(value),
        Err(e) => Err(e.to_string()),
    }
}

/// The JSON value `null` (`serde_json::Value::Null`), whose text is `null`.
#[verifier::external_body]
pub(crate) fn null() -> (value: serde_json::Value)
    ensures
        json_text(value) == seq!['n', 'u', 'l', 'l'],
{
    serde_json::Value::Null
}

/// Looks `key` up in `value` by indexing and takes the result as a string
/// (`Value::as_str`): the string under that name, where `value` is an
/// object that has one.
#[verifier::external_body]
pub(crate) fn string_member(value: &serde_json::Value, key: &str) -> (r: Option<String>)
    ensures
        match r {
            Some(s) => json_string_member(json_text(*value), key@) == Some(s@),
            None => json_string_member(json_text(*value), key@) is None,
        },
{
    value[key].as_str().map(str::to_owned)
}

/// An object without members (`serde_json::Map::new`).
#[verifier::external_body]
pub(crate) fn new_object() -> (made: serde_json::Map<String, serde_json::Value>)
    ensures
        (object_members(made) == Map::<Seq<char>, Option<Seq<char>>>::empty()),
{
    serde_json::Map::new()
}

/// Puts the string `value` under `key` (`serde_json::Map::insert`), in
/// place of what the object held under that name, if anything.
#[verifier::external_body]
pub(crate) fn insert_string(
    object: &mut serde_json::Map<String, serde_json::Value>,
    key: &str,
    value: &str,
)
    ensures
        object_members(*final(object)) == object_members(*old(object)).insert(
            key@,
            Some(value@),
        ),
{
    object.insert(key.to_owned(), serde_json::Value::String(value.to_owned()));
}

} // verus!
