//! The JSON values of `serde_json`, as far as redaction reads and changes them.
//!
//! A JSON object is taken as its fields in the order in which they are written, each with its key
//! and with the compact JSON text of its value.

use serde_json::Value;
use vstd::prelude::*;

use crate::text::{join_spec, occurs_at};

verus! {

/// `serde_json`'s JSON value.
#[verifier::external_type_specification]
#[verifier::external_body]
pub struct ExValue(serde_json::Value);

/// What `serde_json` reads `text` as: nothing where it is not JSON, `Some(None)` where it is a
/// JSON value other than an object, and the fields where it is an object.
pub uninterp spec fn json_document(
    text: Seq<char>,
) -> Option<Option<Seq<(Seq<char>, Seq<char>)>>>;

/// The fields of a JSON value, if it is an object.
pub uninterp spec fn object_fields(value: Value) -> Option<Seq<(Seq<char>, Seq<char>)>>;

/// The compact JSON text of a JSON value.
pub uninterp spec fn json_text(value: Value) -> Seq<char>;

/// The lower-case hexadecimal digit for a number below sixteen.
pub open spec fn hex_digit(d: int) -> char {
    (if d < 10 {
        '0' as int + d
    } else {
        'a' as int + d - 10
    }) as char
}

/// How JSON writes a character of a string.
pub open spec fn escaped(c: char) -> Seq<char> {
    if c == '"' {
        "\\\""@
    } else if c == '\\' {
        "\\\\"@
    } else if c == '\x08' {
        "\\b"@
    } else if c == '\x0c' {
        "\\f"@
    } else if c == '\n' {
        "\\n"@
    } else if c == '\r' {
        "\\r"@
    } else if c == '\t' {
        "\\t"@
    } else if c <= '\x1f' {
        "\\u00"@ + seq![hex_digit(c as int / 16), hex_digit(c as int % 16)]
    } else {
        seq![c]
    }
}

/// How JSON writes a string with these characters.
pub open spec fn quoted(text: Seq<char>) -> Seq<char> {
    "\""@ + text.map_values(|c: char| escaped(c)).flatten() + "\""@
}

/// How compact JSON writes a field of an object.
pub open spec fn field_text(field: (Seq<char>, Seq<char>)) -> Seq<char> {
    quoted(field.0) + ":"@ + field.1
}

/// The compact JSON text of the object with these fields.
pub open spec fn object_text(fields: Seq<(Seq<char>, Seq<char>)>) -> Seq<char> {
    "{"@ + join_spec(
        fields.map_values(|field: (Seq<char>, Seq<char>)| field_text(field)),
        ","@,
    ) + "}"@
}

/// The compact JSON text of the array with these items.
pub open spec fn array_text(items: Seq<Seq<char>>) -> Seq<char> {
    "["@ + join_spec(items, ","@) + "]"@
}

/// Whether a JSON text is that of a string.
pub open spec fn is_string_text(text: Seq<char>) -> bool {
    exists|s: Seq<char>| text == #[trigger] quoted(s)
}

/// Whether a JSON text is that of an integer.
pub open spec fn is_integer_text(text: Seq<char>) -> bool {
    &&& text.len() > 0
    &&& text.last() != '-'
    &&& forall|i: int|
        0 <= i < text.len() ==> '0' <= #[trigger] text[i] <= '9' || (i == 0 && text[i] == '-')
}

/// Whether a JSON text is that of a number which, written as the value of a field, reads back as it
/// was written.
pub open spec fn is_stable_number_text(text: Seq<char>) -> bool {
    &&& text.len() > 0
    &&& forall|i: int|
        0 <= i < text.len() ==> '0' <= #[trigger] text[i] <= '9' || text[i] == '-' || text[i]
            == '+' || text[i] == '.' || text[i] == 'e'
    &&& json_document(object_text(seq![(""@, text)])) == Some(Some(seq![(""@, text)]))
}

/// Whether a key is one with which `serde_json` marks values of its own.
pub open spec fn is_reserved_key(key: Seq<char>) -> bool {
    occurs_at(key, "$serde_json::private::"@, 0)
}

/// Whether a JSON text is that of a value made of strings, integers and other stable numbers,
/// booleans and nulls, nested in arrays and objects at most `depth` deep, without a reserved key.
pub open spec fn is_exact_value(text: Seq<char>, depth: nat) -> bool
    decreases depth,
{
    ||| is_string_text(text)
    ||| is_integer_text(text)
    ||| is_stable_number_text(text)
    ||| text == "true"@ || text == "false"@ || text == "null"@
    ||| depth > 0 && exists|items: Seq<Seq<char>>|
        text == #[trigger] array_text(items) && forall|i: int|
            0 <= i < items.len() ==> is_exact_value(#[trigger] items[i], (depth - 1) as nat)
    ||| depth > 0 && exists|fields: Seq<(Seq<char>, Seq<char>)>|
        text == #[trigger] object_text(fields) && forall|i: int|
            0 <= i < fields.len() ==> !is_reserved_key((#[trigger] fields[i]).0) && is_exact_value(
                fields[i].1,
                (depth - 1) as nat,
            )
}

/// How deep the values of an object may be nested: `serde_json` reads no document that is nested
/// deeper than one more.
pub const VALUE_DEPTH: usize = 126;

/// Whether the fields are those of an object whose values are made of strings, integers and other
/// stable numbers, booleans and nulls, nested no deeper than `serde_json` reads them, without a
/// reserved key.
pub open spec fn is_exact_object(fields: Seq<(Seq<char>, Seq<char>)>) -> bool {
    forall|i: int|
        0 <= i < fields.len() ==> !is_reserved_key((#[trigger] fields[i]).0) && is_exact_value(
            fields[i].1,
            VALUE_DEPTH as nat,
        )
}

/// Whether one of the fields has this key.
pub open spec fn has_field(fields: Seq<(Seq<char>, Seq<char>)>, key: Seq<char>) -> bool {
    exists|i: int| 0 <= i < fields.len() && (#[trigger] fields[i]).0 == key
}

/// The fields, with the value of the one that has this key replaced.
pub open spec fn with_value(
    fields: Seq<(Seq<char>, Seq<char>)>,
    key: Seq<char>,
    value: Seq<char>,
) -> Seq<(Seq<char>, Seq<char>)> {
    fields.map_values(
        |field: (Seq<char>, Seq<char>)|
            if field.0 == key {
                (key, value)
            } else {
                field
            },
    )
}

/// Reads a text as JSON.
///
/// Calls `serde_json::from_str`. Trusted: what it reads depends on the text alone.
#[verifier::external_body]
pub(crate) fn parse_json(text: &str) -> (r: Option<Value>)
    ensures
        match r {
            Some(value) => json_document(text@) == Some(object_fields(value)),
            None => json_document(text@) is None,
        },
{
    serde_json::from_str::<Value>(text).ok()
}

/// Whether a JSON value is an object.
///
/// Calls `serde_json::Value::is_object`. Trusted: an object is a value that has fields.
#[verifier::external_body]
pub(crate) fn is_object(value: &Value) -> (r: bool)
    ensures
        r == object_fields(*value) is Some,
{
    value.is_object()
}

/// The place of the value that a JSON object has under a key.
///
/// Calls `serde_json::Value::get_mut`. Trusted: there is such a place exactly where the object
/// has a field with the key, and what is put in it becomes that field's value, with every other
/// field left as it is.
#[verifier::external_body]
pub(crate) fn field_mut<'a>(object: &'a mut Value, key: &str) -> (r: Option<&'a mut Value>)
    requires
        object_fields(*old(object)) is Some,
    ensures
        match r {
            Some(slot) => has_field(object_fields(*old(object))->0, key@) && object_fields(
                *final(object),
            ) == Some(
                with_value(object_fields(*old(object))->0, key@, json_text(*final(slot))),
            ),
            None => !has_field(object_fields(*old(object))->0, key@) && object_fields(
                *final(object),
            ) == object_fields(*old(object)),
        },
{
    object.get_mut(key)
}

/// A JSON string.
///
/// Makes a `serde_json::Value::String`. Trusted: its JSON text is the text between quotes, with
/// quotes, backslashes and control characters escaped.
#[verifier::external_body]
pub(crate) fn json_string(text: &str) -> (r: Value)
    ensures
        json_text(r) == quoted(text@),
{
    Value::String(text.to_string())
}

/// A JSON value as compact JSON text.
///
/// Formats a `serde_json::Value`. Trusted: an object is written as its fields, separated by
/// commas, in braces, and an object that was written reads back with the same fields where its
/// values are made of strings, integers, booleans, nulls and numbers that read back by
/// themselves, and nested no deeper than the reader goes. Of other objects this is not stated: a
/// number that is no integer may read back as another, and what is nested deeper is refused.
#[verifier::external_body]
pub(crate) fn write_json(value: &Value) -> (r: String)
    ensures
        r@ == json_text(*value),
        object_fields(*value) matches Some(fields) ==> r@ == object_text(fields),
        object_fields(*value) matches Some(fields) ==> is_exact_object(fields) ==> json_document(
            r@,
        )
            == Some(Some(fields)),
{
    value.to_string()
}

/// A text with neither quotes nor backslashes nor control characters is written as it stands.
pub(crate) proof fn lemma_plain_text_is_quoted_as_it_stands(text: Seq<char>)
    requires
        forall|i: int|
            0 <= i < text.len() ==> ' ' <= #[trigger] text[i] && text[i] != '"' && text[i] != '\\',
    ensures
        quoted(text) == "\""@ + text + "\""@,
{
    lemma_plain_text_is_kept(text);
}

proof fn lemma_plain_text_is_kept(text: Seq<char>)
    requires
        forall|i: int|
            0 <= i < text.len() ==> ' ' <= #[trigger] text[i] && text[i] != '"' && text[i] != '\\',
    ensures
        text.map_values(|c: char| escaped(c)).flatten() == text,
    decreases text.len(),
{
    let parts = text.map_values(|c: char| escaped(c));
    if text.len() > 0 {
        lemma_plain_text_is_kept(text.drop_first());
        assert(parts.drop_first() =~= text.drop_first().map_values(|c: char| escaped(c)));
        assert(parts.first() == seq![text[0]]);
        assert(seq![text[0]] + text.drop_first() =~= text);
    } else {
        assert(parts.flatten() =~= text);
    }
}

} // verus!
