//! JSON text, written and read by `serde_json`.
//!
//! The crate's results are functions of their arguments, and they are named
//! here rather than spelled out: [`json_quoted`] is the string literal that
//! stands for a text, [`json_document`] the value that a text parses to, and
//! [`json_member`], [`json_text`], [`json_flag`] what such a value holds.

use vstd::prelude::*;

verus! {

/// `serde_json::Value`: a parsed JSON value. What it holds is read through
/// [`json_member`], [`json_text`] and [`json_flag`].
#[verifier::external_type_specification]
#[verifier::external_body]
pub struct ExValue(serde_json::Value);

/// `serde_json::Error`: why a text did not parse.
#[verifier::external_type_specification]
#[verifier::external_body]
pub struct ExJsonError(serde_json::Error);

/// The JSON string literal for `text`, quotes included.
pub uninterp spec fn json_quoted(text: Seq<char>) -> Seq<char>;

/// The value that `text` parses to, if it is one JSON value with nothing but
/// white space around it.
pub uninterp spec fn json_document(text: Seq<char>) -> Option<serde_json::Value>;

/// The member `key` of `value`, if `value` is an object that has one.
pub uninterp spec fn json_member(value: serde_json::Value, key: Seq<char>) -> Option<
    serde_json::Value,
>;

/// The text of `value`, if `value` is a string.
pub uninterp spec fn json_text(value: serde_json::Value) -> Option<Seq<char>>;

/// The truth value of `value`, if `value` is a boolean.
pub uninterp spec fn json_flag(value: serde_json::Value) -> Option<bool>;

/// Neither a line feed nor a carriage return occurs in `text`.
pub open spec fn has_no_line_break(text: Seq<char>) -> bool {
    forall|i: int| 0 <= i < text.len() ==> text[i] != '\n' && text[i] != '\r'
}

/// The `Display` form of `serde_json::Value::String`: the compact JSON
/// literal of the text. The serializer writes every character below U+0020
/// as an escape sequence, so the literal holds no raw line break.
#[verifier::external_body]
pub(crate) fn quote(text: &str) -> (literal: String)
    ensures
        literal@ == json_quoted(text@),
        has_no_line_break(literal@),
{
    serde_json::Value::String(text.to_owned()).to_string()
}

/// `serde_json::from_str` at `serde_json::Value`: the value that the whole of
/// `text` parses to, or the parser's error.
#[verifier::external_body]
pub(crate) fn parse(text: &str) -> (outcome: Result<serde_json::Value, serde_json::Error>)
    ensures
        match outcome {
            Ok(value) => json_document(text@) == Some(value),
            Err(_) => json_document(text@).is_none(),
        },
{
    serde_json::from_str::<serde_json::Value>(text)
}

/// `serde_json::Value::get` with a string key: the member of that name, or
/// `None` where the value is no object or has no such member.
#[verifier::external_body]
pub(crate) fn member<'a>(value: &'a serde_json::Value, key: &str) -> (found: Option<
    &'a serde_json::Value,
>)
    ensures
        match found {
            Some(inner) => json_member(*value, key@) == Some(*inner),
            None => json_member(*value, key@).is_none(),
        },
{
    value.get(key)
}

/// `serde_json::Value::as_str`: the text of a string, `None` for any other
/// kind of value.
pub assume_specification<'a>[ serde_json::Value::as_str ](value: &'a serde_json::Value) -> (text:
    Option<&'a str>)
    ensures
        match text {
            Some(s) => json_text(*value) == Some(s@),
            None => json_text(*value).is_none(),
        },
;

/// `serde_json::Value::as_bool`: the truth value of a boolean, `None` for
/// any other kind of value.
pub assume_specification[ serde_json::Value::as_bool ](value: &serde_json::Value) -> (flag: Option<
    bool,
>)
    ensures
        flag == json_flag(*value),
;

} // verus!
