//! HTTP headers, read through the `http` crate.

use vstd::prelude::*;

use crate::text::{trim, trimmed};

verus! {

/// The outside type of a set of headers.
#[verifier::external_type_specification]
#[verifier::external_body]
#[verifier::reject_recursive_types(T)]
pub struct ExHeaderMap<T>(http::HeaderMap<T>);

/// The outside type of a header's value.
#[verifier::external_type_specification]
#[verifier::external_body]
pub struct ExHeaderValue(http::HeaderValue);

/// The outside type that says that a header's value is not text.
#[verifier::external_type_specification]
#[verifier::external_body]
pub struct ExToStrError(http::header::ToStrError);

/// The first value of each header in an `http::HeaderMap`, by the name in lower case.
pub uninterp spec fn header_values(headers: http::HeaderMap<http::HeaderValue>) -> Map<
    Seq<char>,
    http::HeaderValue,
>;

/// The bytes of an `http::HeaderValue`.
pub uninterp spec fn header_bytes(value: http::HeaderValue) -> Seq<u8>;

/// A header name as these services write them: lower-case letters, digits and hyphens.
pub open spec fn is_plain_name(name: Seq<char>) -> bool {
    name.len() > 0 && forall|i: int|
        0 <= i < name.len() ==> {
            let c = #[trigger] name[i];
            ('a' <= c <= 'z') || ('0' <= c <= '9') || c == '-'
        }
}

/// A visible ASCII character, a space or a tab.
pub open spec fn is_visible(byte: u8) -> bool {
    32 <= byte < 127 || byte == 9
}

/// `http::HeaderMap::get`: the first value under a name. A name in lower case is looked up as it
/// stands.
#[verifier::external_body]
fn header_value<'a>(headers: &'a http::HeaderMap<http::HeaderValue>, name: &str) -> (r: Option<
    &'a http::HeaderValue,
>)
    requires
        is_plain_name(name@),
    ensures
        match r {
            Some(value) => header_values(*headers).contains_key(name@)
                && header_values(*headers)[name@] == *value,
            None => !header_values(*headers).contains_key(name@),
        },
{
    headers.get(name)
}

/// `http::HeaderValue::to_str`: the value as text, where every byte of it is visible ASCII, a
/// space or a tab.
#[verifier::external_body]
fn value_text<'a>(value: &'a http::HeaderValue) -> (r: Result<&'a str, http::header::ToStrError>)
    ensures
        match r {
            Ok(text) => (forall|i: int|
                0 <= i < header_bytes(*value).len() ==> is_visible(
                    #[trigger] header_bytes(*value)[i],
                )) && text@ == ascii_text(header_bytes(*value)),
            Err(_) => exists|i: int|
                0 <= i < header_bytes(*value).len() && !is_visible(
                    #[trigger] header_bytes(*value)[i],
                ),
        },
{
    value.to_str()
}

/// The text whose characters are the given ASCII bytes.
pub open spec fn ascii_text(bytes: Seq<u8>) -> Seq<char> {
    Seq::new(bytes.len(), |i: int| bytes[i] as char)
}

/// The text of the first header of that name, if there is one and its value is text.
pub open spec fn text_of_header(
    headers: http::HeaderMap<http::HeaderValue>,
    name: Seq<char>,
) -> Option<Seq<char>> {
    if header_values(headers).contains_key(name) && forall|i: int|
        0 <= i < header_bytes(header_values(headers)[name]).len() ==> is_visible(
            #[trigger] header_bytes(header_values(headers)[name])[i],
        ) {
        Some(ascii_text(header_bytes(header_values(headers)[name])))
    } else {
        None
    }
}

/// The text of the first header of that name, if there is one and its value is text.
pub fn header_text<'a>(headers: &'a http::HeaderMap<http::HeaderValue>, name: &str) -> (r: Option<
    &'a str,
>)
    requires
        is_plain_name(name@),
    ensures
        match r {
            Some(text) => text_of_header(*headers, name@) == Some(text@),
            None => text_of_header(*headers, name@) is None,
        },
{
    match header_value(headers, name) {
        Some(value) => match value_text(value) {
            Ok(text) => Some(text),
            Err(_) => None,
        },
        None => None,
    }
}

/// The same, without the whitespace around it.
pub fn trimmed_header<'a>(
    headers: &'a http::HeaderMap<http::HeaderValue>,
    name: &str,
) -> (r: Option<&'a str>)
    requires
        is_plain_name(name@),
    ensures
        match r {
            Some(text) => text_of_header(*headers, name@) is Some && text@ == trimmed(
                text_of_header(*headers, name@)->0,
            ),
            None => text_of_header(*headers, name@) is None,
        },
{
    match header_text(headers, name) {
        Some(text) => Some(trim(text)),
        None => None,
    }
}

} // verus!
