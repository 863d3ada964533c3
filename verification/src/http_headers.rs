//! The header types of the `http` crate, as `reqwest` re-exports them, with
//! what this library takes on trust about them.
//!
//! Nothing in this file is proved. Each function below makes one call into
//! `http` and states what that call does; the rest of the library is verified
//! against these statements.

use reqwest::header::{HeaderMap, HeaderValue, InvalidHeaderValue};
use vstd::prelude::*;
use vstd::utf8::encode_utf8;

verus! {

/// `http::HeaderMap`, of which verified code sees only `header_map_entries`.
#[verifier::external_type_specification]
#[verifier::external_body]
#[verifier::reject_recursive_types(T)]
pub struct ExHeaderMap<T>(reqwest::header::HeaderMap<T>);

/// `http::HeaderValue`, of which verified code sees only
/// `header_value_bytes`.
#[verifier::external_type_specification]
#[verifier::external_body]
pub struct ExHeaderValue(reqwest::header::HeaderValue);

/// `http::header::InvalidHeaderValue`, the error of a text that is no header
/// value. It holds nothing.
#[verifier::external_type_specification]
#[verifier::external_body]
pub struct ExInvalidHeaderValue(reqwest::header::InvalidHeaderValue);

/// The bytes that a header value holds: what `HeaderValue::as_bytes` shows.
pub uninterp spec fn header_value_bytes(value: HeaderValue) -> Seq<u8>;

/// What a header map holds: for each name in it, as `HeaderName::as_str`
/// writes it (in lower case), the bytes of the values under that name, in the
/// order in which `HeaderMap::get_all` yields them (oldest first).
pub uninterp spec fn header_map_entries(headers: HeaderMap<HeaderValue>) -> Map<
    Seq<char>,
    Seq<Seq<u8>>,
>;

/// A byte that may stand in a header value: the horizontal tab, and anything
/// from the space upwards but DEL.
pub open spec fn is_value_byte(b: u8) -> bool {
    (b >= 32 && b != 127) || b == 9
}

/// A byte that may stand in a header value given as a static string: the
/// horizontal tab and the visible ASCII range.
pub open spec fn is_visible_byte(b: u8) -> bool {
    (b >= 32 && b < 127) || b == 9
}

/// Every byte of the sequence may stand in a header value.
pub open spec fn all_value_bytes(bytes: Seq<u8>) -> bool {
    forall|i: int| 0 <= i < bytes.len() ==> is_value_byte(#[trigger] bytes[i])
}

/// Every byte of the sequence is the tab or visible ASCII.
pub open spec fn all_visible_bytes(bytes: Seq<u8>) -> bool {
    forall|i: int| 0 <= i < bytes.len() ==> is_visible_byte(#[trigger] bytes[i])
}

/// A character that may stand in a header name: a letter, a digit, or one of
/// the fifteen marks that HTTP allows in a token.
pub open spec fn is_name_char(c: char) -> bool {
    ||| 'a' <= c <= 'z'
    ||| 'A' <= c <= 'Z'
    ||| '0' <= c <= '9'
    ||| c == '!'
    ||| c == '#'
    ||| c == '$'
    ||| c == '%'
    ||| c == '&'
    ||| c == '\''
    ||| c == '*'
    ||| c == '+'
    ||| c == '-'
    ||| c == '.'
    ||| c == '^'
    ||| c == '_'
    ||| c == '`'
    ||| c == '|'
    ||| c == '~'
}

/// The longest name that `http` checks character by character when it is
/// given as a static string.
pub const MAX_SHORT_NAME_LEN: usize = 64;

/// A header name of at most `MAX_SHORT_NAME_LEN` characters, all of them name
/// characters.
pub open spec fn is_short_header_name(name: Seq<char>) -> bool {
    &&& 1 <= name.len() <= MAX_SHORT_NAME_LEN
    &&& forall|i: int| 0 <= i < name.len() ==> is_name_char(#[trigger] name[i])
}

/// The lower-case form of an ASCII letter; any other character unchanged.
pub open spec fn lower_char(c: char) -> char {
    if 'A' <= c <= 'Z' {
        ((c as u8) + 32) as char
    } else {
        c
    }
}

/// A name as a header map keeps it: each upper-case ASCII letter replaced by
/// its lower-case form.
pub open spec fn lower_case(name: Seq<char>) -> Seq<char> {
    Seq::new(name.len(), |i: int| lower_char(name[i]))
}

/// A bound on the names in a map under which one more can always be added.
/// A header map gives up at 32768 slots, and asks for more slots only when
/// at least a fifth of them are taken.
pub const SMALL_MAP_LEN: usize = 1024;

/// The map holds fewer than `SMALL_MAP_LEN` names.
pub open spec fn is_small_map(entries: Map<Seq<char>, Seq<Seq<u8>>>) -> bool {
    entries.dom().finite() && entries.dom().len() < SMALL_MAP_LEN
}

/// `HeaderMap::new`: a map with nothing in it.
#[verifier::external_body]
pub(crate) fn empty_header_map() -> (headers: HeaderMap<HeaderValue>)
    ensures
        header_map_entries(headers) =~= Map::empty(),
{
    HeaderMap::new()
}

/// `HeaderValue::from_static`: panics unless every byte of the string is the
/// tab or visible ASCII; the value then holds the string's bytes.
#[verifier::external_body]
pub(crate) fn static_header_value(text: &'static str) -> (value: HeaderValue)
    requires
        all_visible_bytes(encode_utf8(text@)),
    ensures
        header_value_bytes(value) == encode_utf8(text@),
{
    HeaderValue::from_static(text)
}

/// `HeaderValue::from_str`: accepts exactly the strings all of whose bytes may
/// stand in a header value; the value then holds the string's bytes.
#[verifier::external_body]
pub(crate) fn parse_header_value(text: &str) -> (parsed: Result<
    HeaderValue,
    InvalidHeaderValue,
>)
    ensures
        parsed is Ok <==> all_value_bytes(encode_utf8(text@)),
        parsed matches Ok(value) ==> header_value_bytes(value) == encode_utf8(text@),
{
    HeaderValue::from_str(text)
}

/// `HeaderMap::insert` with a static string for the name. The call panics on
/// a short string that is no header name, and when the map would have to grow
/// past its limit; short header names and small maps are clear of both. The
/// map then holds, under the lower-case form of the name, the given value
/// alone, and other names keep what they had. What the name held before is
/// dropped.
#[verifier::external_body]
pub(crate) fn set_header(
    headers: &mut HeaderMap<HeaderValue>,
    name: &'static str,
    value: HeaderValue,
)
    requires
        is_short_header_name(name@),
        is_small_map(header_map_entries(*old(headers))),
    ensures
        header_map_entries(*final(headers)) == header_map_entries(*old(headers)).insert(
            lower_case(name@),
            seq![header_value_bytes(value)],
        ),
{
    headers.insert(name, value);
}

} // verus!
