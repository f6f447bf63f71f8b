//! Request headers: a view of the `http` crate's header map and the calls that read it.
use vstd::prelude::*;

use crate::text::text_option_view;

verus! {

/// The `http` crate's multimap from header names to values.
#[verifier::external_type_specification]
#[verifier::external_body]
#[verifier::reject_recursive_types(T)]
pub struct ExHeaderMap<T>(axum::http::HeaderMap<T>);

/// The `http` crate's header value, a string of bytes.
#[verifier::external_type_specification]
#[verifier::external_body]
pub struct ExHeaderValue(axum::http::HeaderValue);

/// What a header map holds: for each header name, in lower case, the bytes of its values in
/// the order in which they were added.
pub uninterp spec fn header_lines(
    headers: axum::http::HeaderMap<axum::http::HeaderValue>,
) -> Map<Seq<char>, Seq<Seq<u8>>>;

/// The bytes of a header value.
pub uninterp spec fn header_bytes(value: axum::http::HeaderValue) -> Seq<u8>;

/// `c` with an ASCII capital letter made small.
pub open spec fn ascii_lower(c: char) -> char {
    if 'A' <= c <= 'Z' {
        (c as u32 + 32) as char
    } else {
        c
    }
}

/// The form in which a header name is kept: its ASCII letters are small.
pub open spec fn header_name(name: Seq<char>) -> Seq<char> {
    Seq::new(name.len(), |i: int| ascii_lower(name[i]))
}

/// The first value of header `name`, if the header is there.
pub open spec fn first_value(
    lines: Map<Seq<char>, Seq<Seq<u8>>>,
    name: Seq<char>,
) -> Option<Seq<u8>> {
    if lines.contains_key(header_name(name)) && lines[header_name(name)].len() > 0 {
        Some(lines[header_name(name)][0])
    } else {
        None
    }
}

/// Whether a header byte is a tab or a printable ASCII character.
pub open spec fn visible_ascii(byte: u8) -> bool {
    32 <= byte < 127 || byte == 9
}

/// The text of a header value, where all of its bytes are visible ASCII.
pub open spec fn visible_text(bytes: Seq<u8>) -> Option<Seq<char>> {
    if forall|i: int| 0 <= i < bytes.len() ==> visible_ascii(#[trigger] bytes[i]) {
        Some(Seq::new(bytes.len(), |i: int| bytes[i] as char))
    } else {
        None
    }
}

/// The bytes of an optional header value.
pub open spec fn value_option_bytes(value: Option<&axum::http::HeaderValue>) -> Option<Seq<u8>> {
    match value {
        Some(value) => Some(header_bytes(*value)),
        None => None,
    }
}

/// Calls `HeaderMap::get` with a name given as text. Trusted: names are compared without
/// regard to the case of ASCII letters, and where a header has several values the first one
/// is returned. A text that is no header name is never found.
#[verifier::external_body]
pub(crate) fn header_value<'a>(
    headers: &'a axum::http::HeaderMap<axum::http::HeaderValue>,
    name: &str,
) -> (value: Option<&'a axum::http::HeaderValue>)
    ensures
        value_option_bytes(value) == first_value(header_lines(*headers), name@),
{
    headers.get(name)
}

/// Calls `HeaderValue::to_str`. Trusted: it gives the value as text where every byte is
/// visible ASCII, and fails otherwise.
#[verifier::external_body]
pub(crate) fn header_text<'a>(value: &'a axum::http::HeaderValue) -> (text: Option<&'a str>)
    ensures
        text_option_view(text) == visible_text(header_bytes(*value)),
{
    value.to_str().ok()
}

} // verus!
