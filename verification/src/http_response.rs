//! What is read of an HTTP response beside its body: the status and a few headers.

use axum::http::HeaderMap;
use vstd::prelude::*;

use crate::encoding::decode_strict;
use crate::text::decimal_spec;

verus! {

/// The header map of the `http` crate.
#[verifier::external_type_specification]
#[verifier::external_body]
#[verifier::reject_recursive_types(T)]
pub struct ExHeaderMap<T>(axum::http::HeaderMap<T>);

/// The header value of the `http` crate.
#[verifier::external_type_specification]
#[verifier::external_body]
pub struct ExHeaderValue(axum::http::HeaderValue);

/// The values that a header map holds under each header name in lower case, in order.
pub uninterp spec fn header_values(headers: HeaderMap) -> Map<Seq<char>, Seq<Seq<u8>>>;

/// Whether `name` is a short header name in lower case, made of letters, digits and hyphens.
pub open spec fn is_lower_case_header_name(name: Seq<char>) -> bool {
    &&& 1 <= name.len() <= 64
    &&& forall|i: int|
        0 <= i < name.len() ==> 'a' <= #[trigger] name[i] <= 'z' || '0' <= name[i] <= '9' || name[i]
            == '-'
}

/// The first value of a header.
pub open spec fn first_header_value(headers: HeaderMap, name: Seq<char>) -> Option<Seq<u8>> {
    if header_values(headers).contains_key(name) {
        Some(header_values(headers)[name][0])
    } else {
        None
    }
}

/// The bytes of an optional byte string.
pub open spec fn optional_bytes(bytes: Option<Vec<u8>>) -> Option<Seq<u8>> {
    match bytes {
        Some(b) => Some(b@),
        None => None,
    }
}

/// The first value of a header, as bytes.
///
/// Calls `http::HeaderMap::get` and copies the value's bytes. Trusted: it gives the first value
/// held under the name, and nothing where there is none.
#[verifier::external_body]
pub(crate) fn header_value(headers: &HeaderMap, name: &str) -> (r: Option<Vec<u8>>)
    requires
        is_lower_case_header_name(name@),
    ensures
        match r {
            Some(value) => header_values(*headers).contains_key(name@) && header_values(
                *headers,
            )[name@].len() > 0 && value@ == header_values(*headers)[name@][0],
            None => !header_values(*headers).contains_key(name@),
        },
{
    headers.get(name).map(|value| value.as_bytes().to_vec())
}

/// Whether a header value's byte is visible ASCII, a space or a tab.
pub open spec fn is_header_text_byte(b: u8) -> bool {
    32 <= b <= 126 || b == 9
}

/// The text of a header value: its bytes, if each of them is visible ASCII, a space or a tab.
pub open spec fn header_value_text(value: Seq<u8>) -> Option<Seq<char>> {
    if forall|i: int| 0 <= i < value.len() ==> is_header_text_byte(#[trigger] value[i]) {
        Some(value.map_values(|b: u8| b as char))
    } else {
        None
    }
}

/// What a message shows of an optional header.
pub open spec fn header_shown(value: Option<Seq<u8>>) -> Seq<char> {
    match value {
        None => "<none>"@,
        Some(bytes) => match header_value_text(bytes) {
            Some(text) => text,
            None => "<invalid utf-8>"@,
        },
    }
}

proof fn lemma_ascii_bytes_decode(bytes: Seq<u8>)
    requires
        forall|i: int| 0 <= i < bytes.len() ==> (#[trigger] bytes[i]) < 128,
    ensures
        vstd::utf8::valid_utf8(bytes),
        vstd::utf8::decode_utf8(bytes) == bytes.map_values(|b: u8| b as char),
{
    let chars = bytes.map_values(|b: u8| b as char);
    vstd::utf8::is_ascii_chars_encode_utf8(chars);
    assert(vstd::utf8::encode_utf8(chars) =~= bytes) by {
        assert forall|i: int| 0 <= i < bytes.len() implies vstd::utf8::encode_utf8(chars)[i]
            == bytes[i] by {
            assert(chars[i] as u8 == bytes[i]);
        }
    }
    vstd::utf8::encode_utf8_valid_utf8(chars);
    vstd::utf8::encode_utf8_decode_utf8(chars);
}

/// Whether each byte is visible ASCII, a space or a tab.
fn is_header_text(value: &Vec<u8>) -> (r: bool)
    ensures
        r == header_value_text(value@) is Some,
{
    let mut i: usize = 0;
    while i < value.len()
        invariant
            i <= value.len(),
            forall|k: int| 0 <= k < i ==> is_header_text_byte(#[trigger] value@[k]),
        decreases value.len() - i,
    {
        let b: u8 = value[i];
        if !((32 <= b && b <= 126) || b == 9) {
            assert(!is_header_text_byte(value@[i as int]));
            return false;
        }
        i = i + 1;
    }
    true
}

/// What a message shows of an optional header.
pub fn show_header(value: Option<Vec<u8>>) -> (r: String)
    ensures
        r@ == header_shown(optional_bytes(value)),
{
    match value {
        None => "<none>".to_owned(),
        Some(bytes) => {
            if !is_header_text(&bytes) {
                return "<invalid utf-8>".to_owned();
            }
            proof {
                lemma_ascii_bytes_decode(bytes@);
            }
            match decode_strict(bytes) {
                Ok(text) => text,
                Err(_) => "<invalid utf-8>".to_owned(),
            }
        },
    }
}

/// The headers that may hold a request's id, the first one first.
pub const REQUEST_ID_HEADER: &'static str = "x-request-id";

pub const OAI_REQUEST_ID_HEADER: &'static str = "x-oai-request-id";

/// The header that holds the id of a proxied request.
pub const CF_RAY_HEADER: &'static str = "cf-ray";

/// What a message shows of a response's headers, given the values of the three that are read.
pub open spec fn headers_shown(
    request_id: Option<Seq<u8>>,
    oai_request_id: Option<Seq<u8>>,
    cf_ray: Option<Seq<u8>>,
) -> Seq<char> {
    "request-id: "@ + header_shown(
        if request_id is Some {
            request_id
        } else {
            oai_request_id
        },
    ) + ", cf-ray: "@ + header_shown(cf_ray)
}

/// What a message shows of a response's headers.
pub open spec fn formatted_headers(headers: HeaderMap) -> Seq<char> {
    headers_shown(
        first_header_value(headers, REQUEST_ID_HEADER@),
        first_header_value(headers, OAI_REQUEST_ID_HEADER@),
        first_header_value(headers, CF_RAY_HEADER@),
    )
}

/// What a message shows of a response's headers, given the values of the three that are read.
pub fn show_headers(
    request_id: Option<Vec<u8>>,
    oai_request_id: Option<Vec<u8>>,
    cf_ray: Option<Vec<u8>>,
) -> (r: String)
    ensures
        r@ == headers_shown(
            optional_bytes(request_id),
            optional_bytes(oai_request_id),
            optional_bytes(cf_ray),
        ),
{
    let shown_id = match request_id {
        Some(id) => show_header(Some(id)),
        None => show_header(oai_request_id),
    };
    let mut out = "request-id: ".to_owned();
    out.append(shown_id.as_str());
    out.append(", cf-ray: ");
    out.append(show_header(cf_ray).as_str());
    out
}

/// What a message shows of a response's headers: the ids by which the request can be traced.
pub fn format_headers(headers: &HeaderMap) -> (r: String)
    ensures
        r@ == formatted_headers(*headers),
{
    proof {
        reveal_strlit("x-request-id");
        reveal_strlit("x-oai-request-id");
        reveal_strlit("cf-ray");
    }
    let request_id = header_value(headers, REQUEST_ID_HEADER);
    let oai_request_id = header_value(headers, OAI_REQUEST_ID_HEADER);
    let cf_ray = header_value(headers, CF_RAY_HEADER);
    show_headers(request_id, oai_request_id, cf_ray)
}

/// The reason phrase of an HTTP status, such as `Not Found`.
pub uninterp spec fn status_reason(status: u16) -> Seq<char>;

/// The text of an HTTP status, such as `404 Not Found`.
pub open spec fn status_text(status: u16) -> Seq<char> {
    decimal_spec(status as nat) + " "@ + status_reason(status)
}

/// Whether `status` is a number that HTTP has for a status.
pub open spec fn is_status(status: u16) -> bool {
    100 <= status <= 999
}

/// Whether `status` says that a request succeeded.
pub open spec fn is_success_status(status: u16) -> bool {
    200 <= status <= 299
}

/// The text of an HTTP status, such as `404 Not Found`.
///
/// Makes an `http::StatusCode` of the number and formats it. Trusted: the text is the number, a
/// space and a reason phrase that depends on the number alone.
#[verifier::external_body]
pub(crate) fn show_status(status: u16) -> (r: String)
    requires
        is_status(status),
    ensures
        r@ == decimal_spec(status as nat) + " "@ + status_reason(status),
{
    axum::http::StatusCode::from_u16(status).unwrap().to_string()
}

/// Of a response's headers a message shows the request's id, from `x-request-id` if that is there
/// and else from `x-oai-request-id`, and the id from `cf-ray`. Each is shown as its ASCII text,
/// as `<none>` where it is missing and as `<invalid utf-8>` where it is no such text.
pub proof fn law_headers_are_shown_by_their_ids(
    request_id: Option<Seq<u8>>,
    oai_request_id: Option<Seq<u8>>,
    cf_ray: Option<Seq<u8>>,
    show: spec_fn(Option<Seq<u8>>) -> Seq<char>,
)
    requires
        show(None) == "<none>"@,
        forall|bytes: Seq<u8>|
            (forall|i: int| 0 <= i < bytes.len() ==> 32 <= #[trigger] bytes[i] <= 126 || bytes[i] == 9)
                ==> (#[trigger] show(Some(bytes))).len() == bytes.len() && forall|i: int|
                0 <= i < bytes.len() ==> #[trigger] show(Some(bytes))[i] as int == bytes[i],
        forall|bytes: Seq<u8>|
            !(forall|i: int|
                0 <= i < bytes.len() ==> 32 <= #[trigger] bytes[i] <= 126 || bytes[i] == 9)
                ==> #[trigger] show(Some(bytes)) == "<invalid utf-8>"@,
    ensures
        request_id is Some ==> headers_shown(request_id, oai_request_id, cf_ray)
            == "request-id: "@ + show(request_id) + ", cf-ray: "@ + show(cf_ray),
        request_id is None ==> headers_shown(request_id, oai_request_id, cf_ray)
            == "request-id: "@ + show(oai_request_id) + ", cf-ray: "@ + show(cf_ray),
        header_shown(cf_ray) == show(cf_ray),
{
    assert forall|value: Option<Seq<u8>>| #[trigger] header_shown(value) == show(value) by {
        if let Some(bytes) = value {
            if forall|i: int|
                0 <= i < bytes.len() ==> 32 <= #[trigger] bytes[i] <= 126 || bytes[i] == 9 {
                assert forall|i: int| 0 <= i < bytes.len() implies is_header_text_byte(
                    #[trigger] bytes[i],
                ) by {}
                let text = bytes.map_values(|b: u8| b as char);
                assert forall|i: int| 0 <= i < bytes.len() implies text[i] == show(value)[i] by {
                    assert(text[i] as int == bytes[i]);
                }
                assert(text =~= show(value));
            } else {
                let i = choose|i: int|
                    0 <= i < bytes.len() && !(32 <= #[trigger] bytes[i] <= 126 || bytes[i] == 9);
                assert(!is_header_text_byte(bytes[i]));
            }
        }
    }
}

/// The ids that a message shows are the first values of the headers `x-request-id`,
/// `x-oai-request-id` and `cf-ray`.
pub proof fn law_ids_are_first_header_values(
    headers: HeaderMap,
    first: spec_fn(Seq<char>) -> Option<Seq<u8>>,
)
    requires
        forall|name: Seq<char>| #[trigger]
            first(name) == (if header_values(headers).contains_key(name) {
                Some(header_values(headers)[name][0])
            } else {
                None
            }),
    ensures
        formatted_headers(headers) == headers_shown(
            first("x-request-id"@),
            first("x-oai-request-id"@),
            first("cf-ray"@),
        ),
{
}

/// A response's status is shown as its number, a space and its reason phrase. The requests that
/// succeeded are those with a status of the two hundreds.
pub proof fn law_status_is_shown_by_its_number(status: u16)
    ensures
        status_text(status) == decimal_spec(status as nat) + " "@ + status_reason(status),
        is_success_status(status) <==> status / 100 == 2,
        is_status(status) <==> 100 <= status < 1000,
{
}

/// A value's bytes are those of the header, where there is one.
pub proof fn law_optional_bytes_are_the_values(bytes: Option<Vec<u8>>)
    ensures
        bytes matches Some(b) ==> optional_bytes(bytes) == Some(b@),
        bytes is None ==> optional_bytes(bytes) is None,
{
}

} // verus!
