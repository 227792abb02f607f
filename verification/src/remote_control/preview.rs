//! A response body as it may be shown in a message: redacted and cut to a length.

use vstd::prelude::*;
use vstd::utf8::{decode_utf8, encode_scalar, encode_utf8, valid_utf8};

use crate::encoding::{decode_lossy, utf8_lossy};
use crate::json::{
    field_mut, has_field, is_exact_object, is_object, is_string_text, json_document, json_string,
    lemma_plain_text_is_quoted_as_it_stands, object_fields, object_text, parse_json, quoted,
    with_value, write_json,
};
use crate::text::{chars_of, trim, trim_spec};

verus! {

/// A preview is cut to this many bytes.
pub const REMOTE_CONTROL_RESPONSE_BODY_MAX_BYTES: usize = 4096;

/// Whether a preview must not show the value of the field with this key.
pub open spec fn is_sensitive(key: Seq<char>) -> bool {
    key == "remote_control_token"@ || key == "pairing_code"@ || key == "manual_pairing_code"@
}

/// The JSON text that stands for a sensitive value.
pub open spec fn redacted_value() -> Seq<char> {
    "\"<redacted>\""@
}

/// The fields of a JSON object, with the sensitive values replaced.
pub open spec fn redacted_fields(
    fields: Seq<(Seq<char>, Seq<char>)>,
) -> Seq<(Seq<char>, Seq<char>)> {
    fields.map_values(
        |field: (Seq<char>, Seq<char>)|
            if is_sensitive(field.0) {
                (field.0, redacted_value())
            } else {
                field
            },
    )
}

/// A body with the sensitive values replaced where it is a JSON object, and as it is elsewhere.
pub open spec fn redacted_body(body: Seq<char>) -> Seq<char> {
    match json_document(body) {
        Some(Some(fields)) => object_text(redacted_fields(fields)),
        _ => body,
    }
}

/// Whether what is shown of a body is a JSON object with the redacted fields, where the body is a
/// JSON object without a reserved key and without numbers that do not read back as they are.
pub open spec fn stays_json(body: Seq<char>, shown: Seq<char>) -> bool {
    json_document(body) matches Some(Some(fields)) ==> is_exact_object(fields) ==> json_document(shown)
        == Some(Some(redacted_fields(fields)))
}

/// How many characters from the start of `text` are encoded in at most `max` bytes of UTF-8.
pub open spec fn chars_that_fit(text: Seq<char>, max: int) -> nat
    decreases text.len(),
{
    if text.len() == 0 || encode_scalar(text[0] as u32).len() > max {
        0
    } else {
        1 + chars_that_fit(text.drop_first(), max - encode_scalar(text[0] as u32).len())
    }
}

/// `text`, or as much of it as fits in `max` bytes and an ellipsis.
pub open spec fn cut_to(text: Seq<char>, max: int) -> Seq<char> {
    if encode_utf8(text).len() <= max {
        text
    } else {
        text.take(chars_that_fit(text, max) as int) + "..."@
    }
}

/// What a preview shows of a body with this text.
pub open spec fn text_preview(body: Seq<char>) -> Seq<char> {
    if trim_spec(body).len() == 0 {
        "<empty>"@
    } else {
        cut_to(redacted_body(trim_spec(body)), REMOTE_CONTROL_RESPONSE_BODY_MAX_BYTES as int)
    }
}

/// Whether a body has text, and a preview shows all of it, redacted.
pub open spec fn shows_whole(body: Seq<char>) -> bool {
    trim_spec(body).len() > 0 && encode_utf8(redacted_body(trim_spec(body))).len()
        <= REMOTE_CONTROL_RESPONSE_BODY_MAX_BYTES
}

/// What a preview shows of a body.
pub open spec fn body_preview(body: Seq<u8>) -> Seq<char> {
    text_preview(utf8_lossy(body))
}

/// Replaces the values of the sensitive fields, where the body is a JSON object.
pub fn redact_remote_control_response_body(body: &str) -> (r: String)
    ensures
        r@ == redacted_body(body@),
        stays_json(body@, r@),
        (json_document(body@) matches Some(Some(fields)) ==> is_exact_object(fields)) ==> redacted_body(r@)
            == r@,
{
    match parse_json(body) {
        None => body.to_owned(),
        Some(mut document) => {
            if !is_object(&document) {
                return body.to_owned();
            }
            let ghost fields = object_fields(document)->0;
            redact_field(&mut document, "remote_control_token");
            redact_field(&mut document, "pairing_code");
            redact_field(&mut document, "manual_pairing_code");
            proof {
                let first = with_value(fields, "remote_control_token"@, redacted_value());
                let second = with_value(first, "pairing_code"@, redacted_value());
                let third = with_value(second, "manual_pairing_code"@, redacted_value());
                assert(third =~= redacted_fields(fields));
                if is_exact_object(fields) {
                    lemma_redacted_value();
                    assert(is_string_text(redacted_value()));
                    assert(is_exact_object(third));
                    law_redaction_is_idempotent(fields);
                }
            }
            write_json(&document)
        },
    }
}

proof fn lemma_redacted_value()
    ensures
        redacted_value() == quoted("<redacted>"@),
{
    reveal_strlit("<redacted>");
    reveal_strlit("\"");
    reveal_strlit("\"<redacted>\"");
    lemma_plain_text_is_quoted_as_it_stands("<redacted>"@);
    assert("\""@ + "<redacted>"@ + "\""@ =~= redacted_value());
}

/// Replaces the value of one field of a JSON object, if the object has it. Any other JSON value
/// stays as it is.
pub fn redact_field(object: &mut serde_json::Value, key: &str)
    ensures
        match object_fields(*old(object)) {
            Some(fields) => object_fields(*final(object)) == Some(
                with_value(fields, key@, redacted_value()),
            ),
            None => *final(object) == *old(object),
        },
{
    if !is_object(object) {
        return;
    }
    let ghost fields = object_fields(*object)->0;
    let replacement = {
        proof {
            lemma_redacted_value();
        }
        json_string("<redacted>")
    };
    match field_mut(object, key) {
        Some(slot) => {
            *slot = replacement;
        },
        None => {
            assert(with_value(fields, key@, redacted_value()) =~= fields) by {
                assert forall|i: int| 0 <= i < fields.len() implies (#[trigger] fields[i]).0
                    != key@ by {
                    assert(!has_field(fields, key@));
                }
            }
        },
    }
}

/// How many bytes the UTF-8 encoding of `c` has.
fn encoded_len(c: char) -> (r: usize)
    ensures
        r == encode_scalar(c as u32).len(),
        1 <= r <= 4,
{
    let u: u32 = c as u32;
    if u <= 0x7f {
        1
    } else if u <= 0x7ff {
        2
    } else if u <= 0xffff {
        3
    } else {
        4
    }
}

/// `text`, or as much of it as fits in `max` bytes and an ellipsis.
pub fn cut_text(text: &str, max: usize) -> (r: String)
    ensures
        r@ == cut_to(text@, max as int),
{
    if text.as_bytes().len() <= max {
        return text.to_owned();
    }
    let chars = chars_of(text);
    let mut kept: usize = 0;
    let mut left: usize = max;
    assert(text@.skip(0) == text@);
    while kept < chars.len() && encoded_len(chars[kept]) <= left
        invariant
            kept <= chars.len(),
            chars@ == text@,
            left <= max,
            chars_that_fit(text@, max as int) == kept + chars_that_fit(
                text@.skip(kept as int),
                left as int,
            ),
        decreases chars.len() - kept,
    {
        assert(text@.skip(kept as int).drop_first() == text@.skip(kept + 1));
        left = left - encoded_len(chars[kept]);
        kept = kept + 1;
    }
    let mut cut = text.substring_char(0, kept).to_owned();
    cut.append("...");
    assert(text@.subrange(0, kept as int) == text@.take(kept as int));
    cut
}

/// What a message may show of a response body with this text.
pub fn preview_text(body: &str) -> (r: String)
    ensures
        r@ == text_preview(body@),
        shows_whole(body@) ==> stays_json(trim_spec(body@), r@),
{
    let trimmed = trim(body);
    if trimmed.is_empty() {
        return "<empty>".to_owned();
    }
    let redacted = redact_remote_control_response_body(trimmed);
    cut_text(redacted.as_str(), REMOTE_CONTROL_RESPONSE_BODY_MAX_BYTES)
}

/// What a message may show of a response body: its text without the whitespace around it, with
/// the sensitive values replaced, cut to a length.
pub fn preview_remote_control_response_body(body: &[u8]) -> (r: String)
    ensures
        r@ == body_preview(body@),
        valid_utf8(body@) ==> r@ == text_preview(decode_utf8(body@)),
        shows_whole(utf8_lossy(body@)) ==> stays_json(trim_spec(utf8_lossy(body@)), r@),
{
    let text = decode_lossy(body);
    preview_text(text.as_str())
}

/// Redaction keeps the fields of an object, their order and their keys. It replaces the value of
/// every sensitive field and keeps every other value.
pub proof fn law_redaction_replaces_sensitive_values_only(
    fields: Seq<(Seq<char>, Seq<char>)>,
    i: int,
)
    requires
        0 <= i < fields.len(),
    ensures
        redacted_fields(fields).len() == fields.len(),
        redacted_fields(fields)[i].0 == fields[i].0,
        is_sensitive(fields[i].0) ==> redacted_fields(fields)[i].1 == redacted_value(),
        !is_sensitive(fields[i].0) ==> redacted_fields(fields)[i] == fields[i],
{
}

/// What a preview shows of two JSON objects that differ in their sensitive values alone is the
/// same, so that it tells nothing about those values.
pub proof fn law_preview_does_not_depend_on_sensitive_values(
    one: Seq<char>,
    other: Seq<char>,
    fields: Seq<(Seq<char>, Seq<char>)>,
    other_fields: Seq<(Seq<char>, Seq<char>)>,
)
    requires
        trim_spec(one).len() > 0,
        trim_spec(other).len() > 0,
        json_document(trim_spec(one)) == Some(Some(fields)),
        json_document(trim_spec(other)) == Some(Some(other_fields)),
        fields.len() == other_fields.len(),
        forall|i: int|
            0 <= i < fields.len() ==> (#[trigger] fields[i]).0 == other_fields[i].0 && (
            is_sensitive(fields[i].0) || fields[i].1 == other_fields[i].1),
    ensures
        text_preview(one) == text_preview(other),
{
    assert(redacted_fields(fields) =~= redacted_fields(other_fields));
}

/// Redacting the fields of an object that was redacted changes nothing more.
pub proof fn law_redaction_is_idempotent(fields: Seq<(Seq<char>, Seq<char>)>)
    ensures
        redacted_fields(redacted_fields(fields)) == redacted_fields(fields),
{
    assert(redacted_fields(redacted_fields(fields)) =~= redacted_fields(fields));
}

proof fn lemma_encode_concat(a: Seq<char>, b: Seq<char>)
    ensures
        encode_utf8(a + b) == encode_utf8(a) + encode_utf8(b),
    decreases a.len(),
{
    if a.len() == 0 {
        assert(a + b =~= b);
        assert(encode_utf8(a) + encode_utf8(b) =~= encode_utf8(b));
    } else {
        assert((a + b).drop_first() =~= a.drop_first() + b);
        lemma_encode_concat(a.drop_first(), b);
        assert(encode_scalar(a[0] as u32) + (encode_utf8(a.drop_first()) + encode_utf8(b))
            =~= encode_utf8(a) + encode_utf8(b));
    }
}

/// The characters that are kept of a text that is cut fit in the limit, and one more would not.
pub proof fn law_cut_keeps_as_much_as_fits(text: Seq<char>, max: int)
    requires
        0 <= max < encode_utf8(text).len(),
    ensures
        chars_that_fit(text, max) < text.len(),
        encode_utf8(text.take(chars_that_fit(text, max) as int)).len() <= max,
        encode_utf8(text.take((chars_that_fit(text, max) + 1) as int)).len() > max,
    decreases text.len(),
{
    let width = encode_scalar(text[0] as u32).len();
    if width > max {
        assert(text.take(1).drop_first() =~= Seq::<char>::empty());
        assert(encode_utf8(text.take(1).drop_first()).len() == 0);
        assert(text.take(1)[0] == text[0]);
    } else {
        let rest = text.drop_first();
        let n = chars_that_fit(rest, max - width);
        law_cut_keeps_as_much_as_fits(rest, max - width);
        assert(text.take((n + 1) as int).drop_first() =~= rest.take(n as int));
        assert(text.take((n + 2) as int).drop_first() =~= rest.take((n + 1) as int));
        assert(text.take((n + 1) as int)[0] == text[0]);
        assert(text.take((n + 2) as int)[0] == text[0]);
    }
}

/// A preview has at most as many bytes as the limit and the ellipsis.
pub proof fn law_preview_is_short(body: Seq<char>)
    ensures
        encode_utf8(text_preview(body)).len() <= REMOTE_CONTROL_RESPONSE_BODY_MAX_BYTES + 3,
{
    let max = REMOTE_CONTROL_RESPONSE_BODY_MAX_BYTES as int;
    reveal_strlit("<empty>");
    reveal_strlit("...");
    vstd::utf8::is_ascii_chars_encode_utf8("<empty>"@);
    vstd::utf8::is_ascii_chars_encode_utf8("..."@);
    let shown = redacted_body(trim_spec(body));
    if encode_utf8(shown).len() > max {
        law_cut_keeps_as_much_as_fits(shown, max);
        lemma_encode_concat(shown.take(chars_that_fit(shown, max) as int), "..."@);
    }
}

/// A body without text is shown as `<empty>`, whatever whitespace it has.
pub proof fn law_empty_body_is_named(body: Seq<char>)
    requires
        forall|i: int| 0 <= i < body.len() ==> crate::text::is_whitespace_spec(#[trigger] body[i]),
    ensures
        text_preview(body) == "<empty>"@,
{
    lemma_trim_start_all(body);
}

proof fn lemma_trim_start_all(body: Seq<char>)
    requires
        forall|i: int| 0 <= i < body.len() ==> crate::text::is_whitespace_spec(#[trigger] body[i]),
    ensures
        crate::text::trim_start_spec(body).len() == 0,
    decreases body.len(),
{
    if body.len() > 0 {
        lemma_trim_start_all(body.skip(1));
    }
}

/// Redaction hides the values of the keys `remote_control_token`, `pairing_code` and
/// `manual_pairing_code` of a JSON object, and writes every other field as it is. A body that is no
/// JSON object stays as it is.
pub proof fn law_redaction_hides_three_keys(
    body: Seq<char>,
    fields: Seq<(Seq<char>, Seq<char>)>,
    hidden: Seq<(Seq<char>, Seq<char>)>,
)
    requires
        hidden.len() == fields.len(),
        forall|i: int|
            0 <= i < fields.len() ==> (#[trigger] hidden[i]).0 == fields[i].0 && (if fields[i].0
                == "remote_control_token"@ || fields[i].0 == "pairing_code"@ || fields[i].0
                == "manual_pairing_code"@ {
                hidden[i].1 == "\"<redacted>\""@
            } else {
                hidden[i].1 == fields[i].1
            }),
    ensures
        json_document(body) == Some(Some(fields)) ==> redacted_body(body) == object_text(hidden),
        json_document(body) == None::<Option<Seq<(Seq<char>, Seq<char>)>>> ==> redacted_body(body)
            == body,
        json_document(body) == Some(None::<Seq<(Seq<char>, Seq<char>)>>) ==> redacted_body(body)
            == body,
{
    assert(redacted_fields(fields) =~= hidden);
}

/// A text that fits in the limit is kept whole. Of one that does not, as many characters from its
/// start are kept as fit, and an ellipsis follows them.
pub proof fn law_a_cut_text_is_the_longest_start(text: Seq<char>, max: int)
    requires
        0 <= max,
    ensures
        encode_utf8(text).len() <= max ==> cut_to(text, max) == text,
        encode_utf8(text).len() > max ==> exists|n: int|
            {
                &&& 0 <= n < text.len()
                &&& cut_to(text, max) == #[trigger] text.take(n) + "..."@
                &&& encode_utf8(text.take(n)).len() <= max
                &&& encode_utf8(text.take(n + 1)).len() > max
            },
{
    if encode_utf8(text).len() > max {
        law_cut_keeps_as_much_as_fits(text, max);
        let n = chars_that_fit(text, max) as int;
        assert(cut_to(text, max) == text.take(n) + "..."@);
    }
}

/// A preview is the redacted body, whole up to 4096 bytes and cut to them beyond, or `<empty>`
/// where the body has no text.
pub proof fn law_a_preview_is_the_redacted_body(body: Seq<u8>)
    ensures
        trim_spec(utf8_lossy(body)).len() == 0 ==> body_preview(body) == "<empty>"@,
        trim_spec(utf8_lossy(body)).len() > 0 ==> body_preview(body) == cut_to(
            redacted_body(trim_spec(utf8_lossy(body))),
            4096,
        ),
{
}

/// A preview of a text is `<empty>` where the text is blank, and else the trimmed text, redacted,
/// whole up to 4096 bytes and cut to them beyond.
pub proof fn law_a_text_preview_is_the_redacted_text(body: Seq<char>)
    ensures
        trim_spec(body).len() == 0 ==> text_preview(body) == "<empty>"@,
        trim_spec(body).len() > 0 && encode_utf8(redacted_body(trim_spec(body))).len() <= 4096
            ==> text_preview(body) == redacted_body(trim_spec(body)),
        trim_spec(body).len() > 0 && encode_utf8(redacted_body(trim_spec(body))).len() > 4096
            ==> exists|n: int|
            {
                &&& 0 <= n < redacted_body(trim_spec(body)).len()
                &&& text_preview(body) == #[trigger] redacted_body(trim_spec(body)).take(n) + "..."@
                &&& encode_utf8(redacted_body(trim_spec(body)).take(n)).len() <= 4096
                &&& encode_utf8(redacted_body(trim_spec(body)).take(n + 1)).len() > 4096
            },
        redacted_value() == "\"<redacted>\""@,
{
    law_a_cut_text_is_the_longest_start(redacted_body(trim_spec(body)), 4096);
}

} // verus!
