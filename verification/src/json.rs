//! Reading and writing the small JSON documents that tool calls and tool
//! results carry, through `serde_json`.

use vstd::prelude::*;

use crate::providers::opt_view;

verus! {

/// What `serde_json` reads from `text` when it is a JSON string: its content.
/// `None` when `text` is not JSON, or is JSON of another kind.
pub uninterp spec fn spec_json_string_value(text: Seq<char>) -> Option<Seq<char>>;

/// What `serde_json` reads from the field `key` of the JSON document `text` when
/// that field holds a string. `None` when `text` is not JSON, not an object,
/// lacks the field, or the field holds another kind of value.
pub uninterp spec fn spec_json_string_field(text: Seq<char>, key: Seq<char>) -> Option<Seq<char>>;

/// Whether the JSON document `text` has a field `key`; `None` when `text` is
/// not JSON. A document that is not an object has no fields.
pub uninterp spec fn spec_json_has_field(text: Seq<char>, key: Seq<char>) -> Option<bool>;

/// The text of the error `serde_json` reports when `text` is not a JSON
/// document; `None` when it is one.
pub uninterp spec fn spec_json_syntax_error(text: Seq<char>) -> Option<Seq<char>>;

/// The compact JSON text of the object `{key: value}` with a string value.
pub uninterp spec fn spec_json_object_text(key: Seq<char>, value: Seq<char>) -> Seq<char>;

/// Parses `text` with `serde_json::from_str::<serde_json::Value>` and gives
/// the `Display` text of the error when that fails. The contract claims only
/// that the result is determined by `text`.
#[verifier::external_body]
pub(crate) fn json_syntax_error(text: &str) -> (res: Option<String>)
    ensures
        opt_view(res) == spec_json_syntax_error(text@),
{
    match serde_json::from_str::<serde_json::Value>(text) {
        Ok(_) => None,
        Err(error) => Some(error.to_string()),
    }
}

/// Parses `text` with `serde_json::from_str::<serde_json::Value>` and returns
/// the content when the document is a JSON string. The contract claims only
/// that the result is determined by `text`.
#[verifier::external_body]
pub(crate) fn json_string_value(text: &str) -> (res: Option<String>)
    ensures
        opt_view(res) == spec_json_string_value(text@),
{
    match serde_json::from_str::<serde_json::Value>(text) {
        Ok(serde_json::Value::String(content)) => Some(content),
        _ => None,
    }
}

/// Parses `text` with `serde_json::from_str::<serde_json::Value>`, then reads
/// the field with `serde_json::Value::get` and keeps it when it is a string.
/// The contract claims only that the result is determined by `text` and `key`.
#[verifier::external_body]
pub(crate) fn json_string_field(text: &str, key: &str) -> (res: Option<String>)
    ensures
        opt_view(res) == spec_json_string_field(text@, key@),
{
    match serde_json::from_str::<serde_json::Value>(text) {
        Ok(value) => match value.get(key) {
            Some(serde_json::Value::String(content)) => Some(content.clone()),
            _ => None,
        },
        Err(_) => None,
    }
}

/// Parses `text` with `serde_json::from_str::<serde_json::Value>` and tells
/// whether `serde_json::Value::get` finds the field. The contract claims only
/// that the result is determined by `text` and `key`.
#[verifier::external_body]
pub(crate) fn json_has_field(text: &str, key: &str) -> (res: Option<bool>)
    ensures
        res == spec_json_has_field(text@, key@),
{
    match serde_json::from_str::<serde_json::Value>(text) {
        Ok(value) => Some(value.get(key).is_some()),
        Err(_) => None,
    }
}

/// Writes the one-field object `{key: value}` with the `Display` impl of
/// `serde_json::Value` (compact JSON). The contract claims what `serde_json`
/// documents of its output: it is JSON that parses back to the same object, so
/// the field is there and holds `value`, and the document is not a string.
#[verifier::external_body]
pub(crate) fn json_object_text(key: &str, value: &str) -> (res: String)
    ensures
        res@ == spec_json_object_text(key@, value@),
        spec_json_has_field(res@, key@) == Some(true),
        spec_json_string_field(res@, key@) == Some(value@),
        spec_json_string_value(res@) == None::<Seq<char>>,
{
    let mut object = serde_json::Map::new();
    object.insert(key.to_string(), serde_json::Value::String(value.to_string()));
    serde_json::Value::Object(object).to_string()
}

/// The hexadecimal digit of `d` (below sixteen), in lower case.
pub open spec fn hex_digit(d: int) -> char {
    seq!['0', '1', '2', '3', '4', '5', '6', '7', '8', '9', 'a', 'b', 'c', 'd', 'e', 'f'][d]
}

/// How `serde_json` writes one character inside a string literal: a quote and
/// a backslash get a backslash before them; backspace, tab, line feed, form
/// feed and carriage return their short escapes; the other control characters
/// below U+0020 a `\u00XX` escape in lower-case hexadecimal; every other
/// character stands as it is.
pub open spec fn json_char_escape(c: char) -> Seq<char> {
    if c == '"' {
        seq!['\\', '"']
    } else if c == '\\' {
        seq!['\\', '\\']
    } else if c == '\u{8}' {
        seq!['\\', 'b']
    } else if c == '\t' {
        seq!['\\', 't']
    } else if c == '\n' {
        seq!['\\', 'n']
    } else if c == '\u{c}' {
        seq!['\\', 'f']
    } else if c == '\r' {
        seq!['\\', 'r']
    } else if (c as int) < 0x20 {
        seq!['\\', 'u', '0', '0', hex_digit((c as int) / 16), hex_digit((c as int) % 16)]
    } else {
        seq![c]
    }
}

/// The characters of `text`, each escaped as `serde_json` writes it.
pub open spec fn json_escaped(text: Seq<char>) -> Seq<char>
    decreases text.len(),
{
    if text.len() == 0 {
        Seq::empty()
    } else {
        json_escaped(text.drop_last()) + json_char_escape(text.last())
    }
}

/// The JSON string literal of `text` as `serde_json` writes it.
pub open spec fn json_string_literal(text: Seq<char>) -> Seq<char> {
    seq!['"'] + json_escaped(text) + seq!['"']
}

/// Writes `text` as a JSON string literal with `serde_json::to_string`. The
/// contract claims what the source of `serde_json` shows for a string: it is
/// written between quotes with the escapes of `json_char_escape`, into a
/// buffer that cannot fail, so the call always succeeds.
#[verifier::external_body]
pub(crate) fn json_quote(text: &str) -> (res: Result<String, String>)
    ensures
        res is Ok,
        res->Ok_0@ == json_string_literal(text@),
{
    match serde_json::to_string(text) {
        Ok(json) => Ok(json),
        Err(error) => Err(error.to_string()),
    }
}

} // verus!
