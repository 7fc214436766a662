//! The headers of the three requests, as `reqwest` header maps.
//!
//! Every request carries `Authorization: Bearer <credential>`. The submission
//! adds the content type of its body; the download adds what it accepts.
//! A credential that cannot stand in a header is refused before any request.

use reqwest::header::{HeaderMap, HeaderValue, InvalidHeaderValue};
use vstd::prelude::*;
use vstd::string::{StringExecFns, StringSliceAdditionalSpecFns};
use vstd::utf8::{encode_scalar, encode_utf8};

verus! {

/// `reqwest::header::HeaderMap`, opaque to the verifier.
#[verifier::external_type_specification]
#[verifier::external_body]
#[verifier::reject_recursive_types(T)]
pub struct ExHeaderMap<T>(reqwest::header::HeaderMap<T>);

/// `reqwest::header::HeaderValue`, opaque to the verifier.
#[verifier::external_type_specification]
#[verifier::external_body]
pub struct ExHeaderValue(reqwest::header::HeaderValue);

/// `reqwest::header::InvalidHeaderValue`, opaque to the verifier.
#[verifier::external_type_specification]
#[verifier::external_body]
pub struct ExInvalidHeaderValue(reqwest::header::InvalidHeaderValue);

/// What a header map holds: for each field name, in lower case, the bytes of
/// its values in order.
pub uninterp spec fn header_fields(headers: HeaderMap) -> Map<Seq<char>, Seq<Seq<u8>>>;

/// The bytes that a header value holds.
pub uninterp spec fn header_value_bytes(value: HeaderValue) -> Seq<u8>;

/// A header map without fields.
pub open spec fn no_fields() -> Map<Seq<char>, Seq<Seq<u8>>> {
    Map::empty()
}

/// A byte that may stand in a header value: no control character but the tab.
pub open spec fn header_byte_ok(byte: u8) -> bool {
    (byte >= 32 && byte != 127) || byte == 9
}

/// Bytes that may stand in a header value.
pub open spec fn header_bytes_ok(bytes: Seq<u8>) -> bool {
    forall|i: int| 0 <= i < bytes.len() ==> header_byte_ok(#[trigger] bytes[i])
}

/// A character that may stand in a header value: no control character but
/// the tab.
pub open spec fn header_char_ok(c: char) -> bool {
    (c >= ' ' && c != '\u{7f}') || c == '\t'
}

/// Text that may stand in a header value.
pub open spec fn header_text_ok(text: Seq<char>) -> bool {
    forall|i: int| 0 <= i < text.len() ==> header_char_ok(#[trigger] text[i])
}

/// A character of the field names used here: a lower-case letter, a digit or
/// a hyphen.
pub open spec fn name_char_ok(c: char) -> bool {
    ('a' <= c && c <= 'z') || ('0' <= c && c <= '9') || c == '-'
}

/// A field name as used here: between 1 and 64 such characters.
pub open spec fn header_name_ok(name: Seq<char>) -> bool {
    &&& 1 <= name.len() <= 64
    &&& forall|i: int| 0 <= i < name.len() ==> name_char_ok(#[trigger] name[i])
}

/// Calls `HeaderValue::from_str`. It accepts the text exactly when none of
/// its UTF-8 bytes is a control character other than the tab, and the value
/// then holds those bytes.
#[verifier::external_body]
fn header_value_from_str(text: &str) -> (parsed: Result<HeaderValue, InvalidHeaderValue>)
    ensures
        parsed.is_ok() == header_bytes_ok(text.spec_bytes()),
        parsed matches Ok(value) ==> header_value_bytes(value) == text.spec_bytes(),
{
    HeaderValue::from_str(text)
}

/// Calls `HeaderMap::new`: a map without fields.
#[verifier::external_body]
fn header_map_new() -> (headers: HeaderMap)
    ensures
        header_fields(headers) == no_fields(),
{
    HeaderMap::new()
}

/// Calls `HeaderMap::insert` with a static name. The field then has the given
/// value as its only one, the other fields are as before, and the first of
/// the values that the field had, if it had any, is returned. The name is
/// held to lower-case letters, digits and hyphens, which the map takes as
/// they are, and the map to fewer than 1024 fields, far below the size at
/// which it refuses to grow.
#[verifier::external_body]
fn header_map_insert(headers: &mut HeaderMap, name: &'static str, value: HeaderValue) -> (previous:
    Option<HeaderValue>)
    requires
        header_name_ok(name@),
        header_fields(*old(headers)).dom().finite(),
        header_fields(*old(headers)).dom().len() < 1024,
    ensures
        header_fields(*final(headers)) == header_fields(*old(headers)).insert(
            name@,
            seq![header_value_bytes(value)],
        ),
        previous.is_some() == header_fields(*old(headers)).dom().contains(name@),
        previous matches Some(p) ==> header_value_bytes(p) == header_fields(*old(headers))[name@][0],
{
    headers.insert(name, value)
}

/// The bytes of one character may stand in a header value exactly when the
/// character may.
proof fn lemma_scalar_bytes_ok(c: char)
    ensures
        header_bytes_ok(encode_scalar(c as u32)) == header_char_ok(c),
{
    let v = c as u32;
    let bytes = encode_scalar(v);
    if v <= 0x7F {
        assert((v & 0x7F) as u8 == v as u8) by (bit_vector)
            requires
                v <= 0x7F,
        ;
        assert(bytes[0] == v as u8);
        if header_char_ok(c) {
            assert forall|i: int| 0 <= i < bytes.len() implies header_byte_ok(
                #[trigger] bytes[i],
            ) by {}
        }
    } else {
        assert forall|x: u8|
            (0x80u8 | x) >= 0x80 && (0xC0u8 | x) >= 0x80 && (0xE0u8 | x) >= 0x80 && (0xF0u8 | x)
                >= 0x80 by {
            assert((0x80u8 | x) >= 0x80 && (0xC0u8 | x) >= 0x80 && (0xE0u8 | x) >= 0x80 && (0xF0u8
                | x) >= 0x80) by (bit_vector);
        }
        assert forall|i: int| 0 <= i < bytes.len() implies header_byte_ok(#[trigger] bytes[i]) by {
            assert(bytes[i] >= 0x80);
        }
    }
}

/// The UTF-8 bytes of a text may stand in a header value exactly when each of
/// its characters may.
proof fn lemma_text_bytes_ok(text: Seq<char>)
    ensures
        header_bytes_ok(encode_utf8(text)) == header_text_ok(text),
    decreases text.len(),
{
    if text.len() > 0 {
        let head = encode_scalar(text[0] as u32);
        let rest = text.drop_first();
        let tail = encode_utf8(rest);
        lemma_scalar_bytes_ok(text[0]);
        lemma_text_bytes_ok(rest);
        assert(encode_utf8(text) == head + tail);
        if header_text_ok(text) {
            assert(header_char_ok(text[0]));
            assert forall|i: int| 0 <= i < rest.len() implies header_char_ok(#[trigger] rest[i]) by {
                assert(rest[i] == text[i + 1]);
            }
            assert forall|i: int| 0 <= i < (head + tail).len() implies header_byte_ok(
                #[trigger] (head + tail)[i],
            ) by {
                if i < head.len() {
                    assert((head + tail)[i] == head[i]);
                } else {
                    assert((head + tail)[i] == tail[i - head.len()]);
                }
            }
        }
        if header_bytes_ok(head + tail) {
            assert forall|i: int| 0 <= i < head.len() implies header_byte_ok(#[trigger] head[i]) by {
                assert(head[i] == (head + tail)[i]);
            }
            assert forall|i: int| 0 <= i < tail.len() implies header_byte_ok(#[trigger] tail[i]) by {
                assert(tail[i] == (head + tail)[i + head.len()]);
            }
            assert forall|i: int| 0 <= i < text.len() implies header_char_ok(#[trigger] text[i]) by {
                if i > 0 {
                    assert(text[i] == rest[i - 1]);
                }
            }
        }
    }
}

/// The value of the `Authorization` field for a credential.
pub open spec fn bearer_text(credential: Seq<char>) -> Seq<char> {
    "Bearer "@ + credential
}

/// The bearer value may stand in a header exactly when the credential may.
proof fn lemma_bearer_ok(credential: Seq<char>)
    ensures
        header_text_ok(bearer_text(credential)) == header_text_ok(credential),
{
    reveal_strlit("Bearer ");
    let whole = bearer_text(credential);
    if header_text_ok(credential) {
        assert forall|i: int| 0 <= i < whole.len() implies header_char_ok(#[trigger] whole[i]) by {
            if i >= 7 {
                assert(whole[i] == credential[i - 7]);
            }
        }
    }
    if header_text_ok(whole) {
        assert forall|i: int| 0 <= i < credential.len() implies header_char_ok(
            #[trigger] credential[i],
        ) by {
            assert(credential[i] == whole[i + 7]);
        }
    }
}

/// The headers of a poll request: the credential and nothing else.
pub open spec fn poll_fields(credential: Seq<char>) -> Map<Seq<char>, Seq<Seq<u8>>> {
    no_fields().insert("authorization"@, seq![encode_utf8(bearer_text(credential))])
}

/// The headers of a download: the credential, any content type, the usual
/// compressions, and English.
pub open spec fn download_fields(credential: Seq<char>) -> Map<Seq<char>, Seq<Seq<u8>>> {
    poll_fields(credential).insert("accept"@, seq![encode_utf8("*/*"@)]).insert(
        "accept-encoding"@,
        seq![encode_utf8("gzip, deflate, br, zstd"@)],
    ).insert("accept-language"@, seq![encode_utf8("en-US,en;q=0.9"@)])
}

/// The headers of a submission: a JSON body, and the credential.
pub open spec fn submit_fields(credential: Seq<char>) -> Map<Seq<char>, Seq<Seq<u8>>> {
    no_fields().insert("content-type"@, seq![encode_utf8("application/json"@)]).insert(
        "authorization"@,
        seq![encode_utf8(bearer_text(credential))],
    )
}

/// The credential cannot stand in a header: it holds a control character
/// other than the tab.
#[derive(Clone, Copy, Debug, PartialEq, Eq)]
pub struct InvalidCredential;

/// The value of the `Authorization` field: `Bearer`, a space, the credential.
pub fn bearer(credential: &str) -> (value: String)
    ensures
        value@ == bearer_text(credential@),
{
    "Bearer ".to_owned().concat(credential)
}

/// Sets a field to one value given as text; does nothing and says `false`
/// where the text cannot stand in a header.
fn set_field(headers: &mut HeaderMap, name: &'static str, text: &str) -> (set: bool)
    requires
        header_name_ok(name@),
        header_fields(*old(headers)).dom().finite(),
        header_fields(*old(headers)).dom().len() < 1024,
    ensures
        set == header_text_ok(text@),
        header_fields(*final(headers)).dom().finite(),
        header_fields(*final(headers)).dom().len() <= header_fields(*old(headers)).dom().len() + 1,
        header_fields(*final(headers)) == if set {
            header_fields(*old(headers)).insert(name@, seq![encode_utf8(text@)])
        } else {
            header_fields(*old(headers))
        },
{
    proof {
        lemma_text_bytes_ok(text@);
    }
    match header_value_from_str(text) {
        Ok(value) => {
            let _ = header_map_insert(headers, name, value);
            true
        },
        Err(_) => false,
    }
}

/// The headers of a poll request for the credential.
pub fn poll_headers(credential: &str) -> (built: Result<HeaderMap, InvalidCredential>)
    ensures
        built.is_ok() == header_text_ok(credential@),
        built matches Ok(headers) ==> header_fields(headers) == poll_fields(credential@),
{
    proof {
        lemma_bearer_ok(credential@);
        reveal_strlit("authorization");
    }
    let value = bearer(credential);
    let mut headers = header_map_new();
    if set_field(&mut headers, "authorization", value.as_str()) {
        Ok(headers)
    } else {
        Err(InvalidCredential)
    }
}

/// The headers of a download for the credential.
pub fn download_headers(credential: &str) -> (built: Result<HeaderMap, InvalidCredential>)
    ensures
        built.is_ok() == header_text_ok(credential@),
        built matches Ok(headers) ==> header_fields(headers) == download_fields(credential@),
{
    proof {
        reveal_strlit("accept");
        reveal_strlit("accept-encoding");
        reveal_strlit("accept-language");
        reveal_strlit("*/*");
        reveal_strlit("gzip, deflate, br, zstd");
        reveal_strlit("en-US,en;q=0.9");
    }
    match poll_headers(credential) {
        Ok(mut headers) => {
            let accept = set_field(&mut headers, "accept", "*/*");
            let encoding = set_field(&mut headers, "accept-encoding", "gzip, deflate, br, zstd");
            let language = set_field(&mut headers, "accept-language", "en-US,en;q=0.9");
            assert(accept && encoding && language);
            Ok(headers)
        },
        Err(e) => Err(e),
    }
}

/// The headers of a submission for the credential.
pub fn submit_headers(credential: &str) -> (built: Result<HeaderMap, InvalidCredential>)
    ensures
        built.is_ok() == header_text_ok(credential@),
        built matches Ok(headers) ==> header_fields(headers) == submit_fields(credential@),
{
    proof {
        lemma_bearer_ok(credential@);
        reveal_strlit("content-type");
        reveal_strlit("authorization");
        reveal_strlit("application/json");
    }
    let value = bearer(credential);
    let mut headers = header_map_new();
    let content = set_field(&mut headers, "content-type", "application/json");
    assert(content);
    if set_field(&mut headers, "authorization", value.as_str()) {
        Ok(headers)
    } else {
        Err(InvalidCredential)
    }
}

} // verus!
