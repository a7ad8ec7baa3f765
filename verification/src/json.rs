//! JSON values, read and written by `serde_json`.
//!
//! Nothing here is proved. Each function below makes one call into
//! `serde_json` and says of the result only that it is what that call returns,
//! under a name that the rest of the crate can speak of.

use vstd::prelude::*;

verus! {

/// `serde_json::Value`, a parsed JSON value. Its inside is hidden from proofs.
#[verifier::external_type_specification]
#[verifier::external_body]
pub struct ExJsonValue(serde_json::Value);

/// The value that `serde_json::from_str` reads from a text, `None` where it
/// reports an error.
pub uninterp spec fn json_document(text: Seq<char>) -> Option<serde_json::Value>;

/// What `Value::get` finds in a value under a string key.
pub uninterp spec fn json_member(value: serde_json::Value, key: Seq<char>) -> Option<
    serde_json::Value,
>;

/// What `Value::as_str` returns for a value.
pub uninterp spec fn json_text(value: serde_json::Value) -> Option<Seq<char>>;

/// What `Value::as_u64` returns for a value.
pub uninterp spec fn json_number(value: serde_json::Value) -> Option<u64>;

/// What `Value::is_null` returns for a value.
pub uninterp spec fn json_null(value: serde_json::Value) -> bool;

/// What `Value::is_object` returns for a value.
pub uninterp spec fn json_object(value: serde_json::Value) -> bool;

/// What `serde_json::to_string` writes for a text, `None` where it reports an
/// error.
pub uninterp spec fn json_quoted(text: Seq<char>) -> Option<Seq<char>>;

/// Calls `serde_json::from_str` at type `Value` and drops the error. The
/// result is the one named by [`json_document`].
#[verifier::external_body]
pub(crate) fn parse_document(text: &str) -> (doc: Option<serde_json::Value>)
    ensures
        doc == json_document(text@),
{
    serde_json::from_str::<serde_json::Value>(text).ok()
}

/// Calls `Value::get` with a string key. The result is the one named by
/// [`json_member`].
#[verifier::external_body]
pub(crate) fn member<'a>(value: &'a serde_json::Value, key: &str) -> (found: Option<
    &'a serde_json::Value,
>)
    ensures
        (found is Some) == (json_member(*value, key@) is Some),
        found matches Some(m) ==> json_member(*value, key@) == Some(*m),
{
    value.get(key)
}

/// Calls `Value::as_str`. The result is the one named by [`json_text`].
#[verifier::external_body]
pub(crate) fn text_of<'a>(value: &'a serde_json::Value) -> (found: Option<&'a str>)
    ensures
        (found is Some) == (json_text(*value) is Some),
        found matches Some(s) ==> json_text(*value) == Some(s@),
{
    value.as_str()
}

/// Calls `Value::as_u64`. The result is the one named by [`json_number`].
#[verifier::external_body]
pub(crate) fn number_of(value: &serde_json::Value) -> (found: Option<u64>)
    ensures
        found == json_number(*value),
{
    value.as_u64()
}

/// Calls `Value::is_null`. The result is the one named by [`json_null`].
#[verifier::external_body]
pub(crate) fn is_null(value: &serde_json::Value) -> (null: bool)
    ensures
        null == json_null(*value),
{
    value.is_null()
}

/// Calls `Value::is_object`. The result is the one named by [`json_object`].
#[verifier::external_body]
pub(crate) fn is_object(value: &serde_json::Value) -> (object: bool)
    ensures
        object == json_object(*value),
{
    value.is_object()
}

/// Calls `serde_json::to_string` on a text and drops the error. The result is
/// the one named by [`json_quoted`].
#[verifier::external_body]
pub(crate) fn quote(text: &str) -> (quoted: Option<String>)
    ensures
        (quoted is Some) == (json_quoted(text@) is Some),
        quoted matches Some(q) ==> json_quoted(text@) == Some(q@),
{
    serde_json::to_string(text).ok()
}

} // verus!
