//! Bytes as text, and text as Rust's debug form writes it.

use vstd::prelude::*;
use vstd::utf8::{decode_utf8, valid_utf8};

verus! {

/// What the standard library's lossy UTF-8 decoding makes of `bytes`.
pub uninterp spec fn utf8_lossy(bytes: Seq<u8>) -> Seq<char>;

/// Decodes `bytes`, with a replacement character for what is not UTF-8.
///
/// Calls `String::from_utf8_lossy`. Trusted: the result depends on the bytes alone, and valid
/// UTF-8 is decoded as it stands. Where the replacement characters go in other bytes is not
/// stated.
#[verifier::external_body]
pub(crate) fn decode_lossy(bytes: &[u8]) -> (r: String)
    ensures
        r@ == utf8_lossy(bytes@),
        valid_utf8(bytes@) ==> r@ == decode_utf8(bytes@),
{
    String::from_utf8_lossy(bytes).into_owned()
}

/// The text of the error with which the standard library refuses `bytes` as UTF-8.
pub uninterp spec fn utf8_error_text(bytes: Seq<u8>) -> Seq<char>;

/// Decodes `bytes`, or gives the text of the error where they are not UTF-8.
///
/// Calls `String::from_utf8`. Trusted: it accepts exactly valid UTF-8 and decodes it, and the
/// error's text depends on the bytes alone.
#[verifier::external_body]
pub(crate) fn decode_strict(bytes: Vec<u8>) -> (r: Result<String, String>)
    ensures
        match r {
            Ok(text) => valid_utf8(bytes@) && text@ == decode_utf8(bytes@),
            Err(err) => !valid_utf8(bytes@) && err@ == utf8_error_text(bytes@),
        },
{
    String::from_utf8(bytes).map_err(|err| err.to_string())
}

/// Whether every character is printable ASCII other than a quote and a backslash.
pub open spec fn is_plain(text: Seq<char>) -> bool {
    forall|i: int|
        0 <= i < text.len() ==> ' ' <= #[trigger] text[i] <= '~' && text[i] != '"' && text[i]
            != '\\'
}

/// What the debug form of an optional text is.
pub uninterp spec fn debug_text(text: Option<Seq<char>>) -> Seq<char>;

/// The characters of an optional text.
pub open spec fn optional_chars(text: Option<&str>) -> Option<Seq<char>> {
    match text {
        Some(t) => Some(t@),
        None => None,
    }
}

/// An optional text in debug form, such as `None` or `Some("name")`.
///
/// Formats with `{:?}`. Trusted: the result depends on the text alone, it is `None` where there
/// is no text, and a plain text stands unchanged between quotes. How other characters are
/// escaped is not stated.
#[verifier::external_body]
pub(crate) fn debug_optional(text: Option<&str>) -> (r: String)
    ensures
        r@ == debug_text(optional_chars(text)),
        text is None ==> r@ == "None"@,
        text matches Some(t) ==> is_plain(t@) ==> r@ == "Some(\""@ + t@ + "\")"@,
{
    format!("{text:?}")
}

/// How a message shows an optional text.
pub open spec fn shown_optional(text: Option<Seq<char>>) -> Seq<char> {
    match text {
        None => "None"@,
        Some(t) => if is_plain(t) {
            "Some(\""@ + t + "\")"@
        } else {
            debug_text(text)
        },
    }
}

/// How a message shows an optional text: in debug form.
pub fn show_optional(text: Option<&str>) -> (r: String)
    ensures
        r@ == shown_optional(optional_chars(text)),
{
    debug_optional(text)
}

/// A text that may be missing is shown as `None`, or between the quotes of `Some("")` where it is
/// printable ASCII without quotes and backslashes.
pub proof fn law_optional_texts_are_shown(text: Option<&str>)
    ensures
        text is None ==> shown_optional(optional_chars(text)) == "None"@,
        text matches Some(t) ==> (forall|i: int|
            0 <= i < t@.len() ==> ' ' <= #[trigger] t@[i] <= '~' && t@[i] != '"' && t@[i] != '\\')
            ==> shown_optional(optional_chars(text)) == "Some(\""@ + t@ + "\")"@,
        text matches Some(t) ==> optional_chars(text) == Some(t@),
        text is None ==> optional_chars(text) is None,
{
}

} // verus!
