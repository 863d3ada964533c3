//! The request that a query sends: where it goes and which headers it bears.

use crate::http_headers::{
    all_value_bytes, all_visible_bytes, empty_header_map, header_map_entries,
    is_short_header_name, is_value_byte, is_visible_byte, lower_case, parse_header_value,
    set_header, static_header_value,
};
use reqwest::header::{HeaderMap, HeaderValue};
use vstd::prelude::*;
use vstd::string::*;
use vstd::utf8::{encode_scalar, encode_utf8, is_ascii_chars, is_ascii_chars_encode_utf8};

verus! {

/// The endpoint of the weather service, up to and including `q=`.
pub open spec fn endpoint_text() -> Seq<char> {
    "https://weatherapi-com.p.rapidapi.com/current.json?q="@
}

/// The host that every query names in its host header.
pub open spec fn api_host_text() -> Seq<char> {
    "weatherapi-com.p.rapidapi.com"@
}

/// The name of the host header, as a header map keeps it.
pub open spec fn host_header_name() -> Seq<char> {
    "x-rapidapi-host"@
}

/// The name of the key header, as a header map keeps it.
pub open spec fn key_header_name() -> Seq<char> {
    "x-rapidapi-key"@
}

/// The address of a query for `city`: the endpoint with the city appended as
/// it stands. Nothing in the city is escaped.
pub open spec fn query_url(city: Seq<char>) -> Seq<char> {
    endpoint_text() + city
}

/// A character that may stand in an API key: the horizontal tab, and anything
/// from the space upwards but DEL. Characters beyond ASCII are admitted.
pub open spec fn is_key_char(c: char) -> bool {
    c == '\t' || (' ' <= c && c != '\u{7f}')
}

/// A text that can be sent as an API key. The empty text is one.
pub open spec fn is_api_key_text(api_key: Seq<char>) -> bool {
    forall|i: int| 0 <= i < api_key.len() ==> is_key_char(#[trigger] api_key[i])
}

/// The headers of a query made with `api_key`: the fixed host under the host
/// header and the key under the key header, one value each, as UTF-8 bytes.
pub open spec fn query_headers(api_key: Seq<char>) -> Map<Seq<char>, Seq<Seq<u8>>> {
    Map::empty().insert(host_header_name(), seq![encode_utf8(api_host_text())]).insert(
        key_header_name(),
        seq![encode_utf8(api_key)],
    )
}

/// Builds the address of a query for `city`.
pub fn request_url(city: &str) -> (url: String)
    ensures
        url@ == query_url(city@),
{
    let mut url = String::from_str("https://weatherapi-com.p.rapidapi.com/current.json?q=");
    url.append(city);
    url
}

proof fn lemma_one_byte_scalar(s: u32)
    by (bit_vector)
    requires
        s <= 0x7f,
    ensures
        (s & 0x7f) as u8 == s,
{
}

proof fn lemma_wide_scalar_bytes(s: u32)
    by (bit_vector)
    ensures
        0xc0u8 | ((s >> 6) & 0x1f) as u8 >= 0x80,
        0xe0u8 | ((s >> 12) & 0x0f) as u8 >= 0x80,
        0xf0u8 | ((s >> 18) & 0x7) as u8 >= 0x80,
        0x80u8 | (s & 0x3f) as u8 >= 0x80,
        0x80u8 | ((s >> 6) & 0x3f) as u8 >= 0x80,
        0x80u8 | ((s >> 12) & 0x3f) as u8 >= 0x80,
{
}

/// The bytes that encode one character may all stand in a header value
/// exactly when the character may stand in an API key.
proof fn lemma_key_char_bytes(c: char)
    ensures
        all_value_bytes(encode_scalar(c as u32)) <==> is_key_char(c),
{
    let s = c as u32;
    let bytes = encode_scalar(s);
    lemma_wide_scalar_bytes(s);
    if s <= 0x7f {
        lemma_one_byte_scalar(s);
        assert(is_value_byte(bytes[0]) <==> is_key_char(c));
    }
}

/// A text can be sent as an API key exactly when every byte of its UTF-8
/// form may stand in a header value.
pub proof fn lemma_api_key_text_bytes(api_key: Seq<char>)
    ensures
        is_api_key_text(api_key) <==> all_value_bytes(encode_utf8(api_key)),
    decreases api_key.len(),
{
    if api_key.len() > 0 {
        let head = encode_scalar(api_key[0] as u32);
        let rest = api_key.drop_first();
        let tail = encode_utf8(rest);
        lemma_key_char_bytes(api_key[0]);
        lemma_api_key_text_bytes(rest);
        if is_api_key_text(api_key) {
            assert forall|i: int| 0 <= i < rest.len() implies is_key_char(#[trigger] rest[i]) by {
                assert(rest[i] == api_key[i + 1]);
            }
            assert forall|i: int| 0 <= i < (head + tail).len() implies is_value_byte(
                #[trigger] (head + tail)[i],
            ) by {
                if i < head.len() {
                    assert((head + tail)[i] == head[i]);
                } else {
                    assert((head + tail)[i] == tail[i - head.len()]);
                }
            }
        }
        if all_value_bytes(head + tail) {
            assert forall|i: int| 0 <= i < head.len() implies is_value_byte(#[trigger] head[i]) by {
                assert(head[i] == (head + tail)[i]);
            }
            assert forall|i: int| 0 <= i < tail.len() implies is_value_byte(#[trigger] tail[i]) by {
                assert(tail[i] == (head + tail)[i + head.len()]);
            }
            assert forall|i: int| 0 <= i < api_key.len() implies is_key_char(
                #[trigger] api_key[i],
            ) by {
                if i > 0 {
                    assert(api_key[i] == rest[i - 1]);
                }
            }
        }
    }
}

/// The host is plain visible ASCII, so it can be made a header value without
/// being parsed.
proof fn lemma_host_is_visible()
    ensures
        all_visible_bytes(encode_utf8(api_host_text())),
{
    let host = api_host_text();
    reveal_strlit("weatherapi-com.p.rapidapi.com");
    assert(is_ascii_chars(host));
    is_ascii_chars_encode_utf8(host);
    assert forall|i: int| 0 <= i < encode_utf8(host).len() implies is_visible_byte(
        #[trigger] encode_utf8(host)[i],
    ) by {
        assert(encode_utf8(host)[i] == host[i] as u8);
    }
}

/// The two names, as they are written in a request, are header names, and a
/// header map keeps them under their lower-case forms, which differ.
proof fn lemma_header_names()
    ensures
        is_short_header_name("X-RapidAPI-Host"@),
        is_short_header_name("X-RapidAPI-Key"@),
        lower_case("X-RapidAPI-Host"@) == host_header_name(),
        lower_case("X-RapidAPI-Key"@) == key_header_name(),
        host_header_name() != key_header_name(),
{
    reveal_strlit("X-RapidAPI-Host");
    reveal_strlit("X-RapidAPI-Key");
    reveal_strlit("x-rapidapi-host");
    reveal_strlit("x-rapidapi-key");
}

/// Tells whether `api_key` can be sent as an API key.
pub fn is_valid_api_key(api_key: &str) -> (valid: bool)
    ensures
        valid == is_api_key_text(api_key@),
{
    proof {
        lemma_api_key_text_bytes(api_key@);
    }
    parse_header_value(api_key).is_ok()
}

/// Builds the headers of a query made with `api_key`: `X-RapidAPI-Host` with
/// the fixed host and `X-RapidAPI-Key` with the key.
///
/// A key that cannot be sent has no headers: test it with
/// [`is_valid_api_key`] first.
pub fn request_headers(api_key: &str) -> (headers: HeaderMap<HeaderValue>)
    requires
        is_api_key_text(api_key@),
    ensures
        header_map_entries(headers) == query_headers(api_key@),
{
    proof {
        lemma_host_is_visible();
        lemma_header_names();
        lemma_api_key_text_bytes(api_key@);
    }
    let mut headers = empty_header_map();
    let host = static_header_value("weatherapi-com.p.rapidapi.com");
    set_header(&mut headers, "X-RapidAPI-Host", host);
    if let Ok(key) = parse_header_value(api_key) {
        set_header(&mut headers, "X-RapidAPI-Key", key);
    }
    headers
}

} // verus!
