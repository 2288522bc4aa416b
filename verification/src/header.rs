//! The `Authorization` header: which texts can be one, and the calls into
//! `reqwest` that turn the text into a header value and a header map.

use vstd::prelude::*;
use vstd::utf8::*;
use reqwest::header::{HeaderMap, HeaderValue, InvalidHeaderValue};

verus! {

/// `reqwest::header::HeaderValue`, the bytes of one header field value.
#[verifier::external_type_specification]
#[verifier::external_body]
pub struct ExHeaderValue(reqwest::header::HeaderValue);

/// `reqwest::header::HeaderMap`, the header fields of a request by name.
#[verifier::external_type_specification]
#[verifier::external_body]
#[verifier::reject_recursive_types(T)]
pub struct ExHeaderMap<T>(reqwest::header::HeaderMap<T>);

/// The bytes that a header value holds, which `HeaderValue::as_bytes` gives.
pub uninterp spec fn header_value_bytes(value: HeaderValue) -> Seq<u8>;

/// What a header map holds: under each field name, in lower case, the bytes
/// of each of its values in order, as `HeaderMap::get_all` gives them.
pub uninterp spec fn header_map_values(headers: HeaderMap<HeaderValue>) -> Map<Seq<char>, Seq<Seq<u8>>>;

/// A header map without any field.
pub open spec fn no_fields() -> Map<Seq<char>, Seq<Seq<u8>>> {
    Map::empty()
}

/// A byte that may stand in a header value: a horizontal tab, or anything
/// from the space upwards but the delete character.
pub open spec fn is_header_value_byte(b: u8) -> bool {
    (b >= 32 && b != 127) || b == 9
}

/// Byte strings that can be a header value.
pub open spec fn is_header_value(bytes: Seq<u8>) -> bool {
    forall|i: int| 0 <= i < bytes.len() ==> is_header_value_byte(#[trigger] bytes[i])
}

/// A character that may stand in a header value: every character but the
/// control characters of ASCII, of which only the horizontal tab is let in.
pub open spec fn is_header_value_char(c: char) -> bool {
    (c as u32 >= 32 && c as u32 != 127) || c as u32 == 9
}

/// Texts that can be a header value.
pub open spec fn is_header_text(text: Seq<char>) -> bool {
    forall|i: int| 0 <= i < text.len() ==> is_header_value_char(#[trigger] text[i])
}

/// The value of the `Authorization` header that presents `token` as a
/// bearer token.
pub open spec fn bearer(token: Seq<char>) -> Seq<char> {
    "Bearer "@ + token
}

/// `HeaderValue::from_str`: succeeds exactly on the texts whose UTF-8 bytes
/// are all header value bytes, and the value then holds those bytes.
#[verifier::external_body]
pub(crate) fn header_value_from_str(text: &str) -> (r: Result<HeaderValue, InvalidHeaderValue>)
    ensures
        r is Ok <==> is_header_value(encode_utf8(text@)),
        r matches Ok(value) ==> header_value_bytes(value) == encode_utf8(text@),
{
    HeaderValue::from_str(text)
}

/// `HeaderMap::new`: a map without any field.
#[verifier::external_body]
pub(crate) fn new_header_map() -> (headers: HeaderMap<HeaderValue>)
    ensures
        header_map_values(headers) == no_fields(),
{
    HeaderMap::new()
}

/// `HeaderMap::insert` under the name `reqwest::header::AUTHORIZATION`,
/// which is `authorization`: on a map without any field, the map then holds
/// that one field with that one value.
#[verifier::external_body]
pub(crate) fn insert_authorization(headers: &mut HeaderMap<HeaderValue>, value: HeaderValue)
    requires
        header_map_values(*old(headers)) == no_fields(),
    ensures
        header_map_values(*final(headers)) == no_fields().insert(
            "authorization"@,
            seq![header_value_bytes(value)],
        ),
{
    headers.insert(reqwest::header::AUTHORIZATION, value);
}

proof fn lemma_one_byte(v: u32)
    by (bit_vector)
    requires
        v <= 0x7F,
    ensures
        ((v & 0x7F) as u8) as u32 == v,
{
}

proof fn lemma_high_bytes(v: u32)
    by (bit_vector)
    ensures
        (0xC0u8 | ((v >> 6) & 0x1F) as u8) >= 0x80u8,
        (0xE0u8 | ((v >> 12) & 0x0F) as u8) >= 0x80u8,
        (0xF0u8 | ((v >> 18) & 0x7) as u8) >= 0x80u8,
        (0x80u8 | (v & 0x3F) as u8) >= 0x80u8,
        (0x80u8 | ((v >> 6) & 0x3F) as u8) >= 0x80u8,
        (0x80u8 | ((v >> 12) & 0x3F) as u8) >= 0x80u8,
{
}

/// The bytes of one character are header value bytes exactly when the
/// character is a header value character.
proof fn lemma_char_bytes(c: char)
    ensures
        is_header_value(encode_scalar(c as u32)) <==> is_header_value_char(c),
{
    let v = c as u32;
    let bytes = encode_scalar(v);
    lemma_high_bytes(v);
    if has_width_1_encoding(v) {
        lemma_one_byte(v);
        assert(bytes[0] as u32 == v);
    } else {
        assert(bytes[0] >= 0x80u8);
    }
}

proof fn lemma_header_value_concat(a: Seq<u8>, b: Seq<u8>)
    ensures
        is_header_value(a + b) <==> is_header_value(a) && is_header_value(b),
{
    if is_header_value(a + b) {
        assert forall|i: int| 0 <= i < a.len() implies is_header_value_byte(#[trigger] a[i]) by {
            assert((a + b)[i] == a[i]);
        }
        assert forall|i: int| 0 <= i < b.len() implies is_header_value_byte(#[trigger] b[i]) by {
            assert((a + b)[a.len() + i] == b[i]);
        }
    }
}

/// A text can be a header value exactly when its UTF-8 bytes can: the two
/// readings of the rule, by characters and by bytes, agree.
pub proof fn lemma_header_text_bytes(text: Seq<char>)
    ensures
        is_header_value(encode_utf8(text)) <==> is_header_text(text),
    decreases text.len(),
{
    if text.len() > 0 {
        let rest = text.drop_first();
        lemma_header_text_bytes(rest);
        lemma_char_bytes(text[0]);
        lemma_header_value_concat(encode_scalar(text[0] as u32), encode_utf8(rest));
        if is_header_text(text) {
            assert forall|i: int| 0 <= i < rest.len() implies is_header_value_char(
                #[trigger] rest[i],
            ) by {
                assert(rest[i] == text[i + 1]);
            }
        }
        if is_header_text(rest) && is_header_value_char(text[0]) {
            assert forall|i: int| 0 <= i < text.len() implies is_header_value_char(
                #[trigger] text[i],
            ) by {
                if i > 0 {
                    assert(text[i] == rest[i - 1]);
                }
            }
        }
    }
}

/// Presenting a token as a bearer token neither makes it a header text nor
/// stops it from being one.
pub proof fn lemma_bearer_header_text(token: Seq<char>)
    ensures
        is_header_text(bearer(token)) <==> is_header_text(token),
{
    reveal_strlit("Bearer ");
    let prefix = "Bearer "@;
    let whole = bearer(token);
    if is_header_text(whole) {
        assert forall|i: int| 0 <= i < token.len() implies is_header_value_char(
            #[trigger] token[i],
        ) by {
            assert(whole[prefix.len() + i] == token[i]);
        }
    }
    if is_header_text(token) {
        assert forall|i: int| 0 <= i < whole.len() implies is_header_value_char(
            #[trigger] whole[i],
        ) by {
            if i >= prefix.len() {
                assert(whole[i] == token[i - prefix.len()]);
            }
        }
    }
}

} // verus!
