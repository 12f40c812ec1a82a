//! The header set of a client, kept in the `HeaderMap` that `reqwest` sends.
//!
//! The map and the names and values in it are opaque to the verifier. The
//! spec functions below name what parsing gives and what a map holds; each
//! executable function of this file makes one call whose result is stated
//! over those names. None of these statements is proved.

use vstd::prelude::*;
use std::str::FromStr;
use reqwest::header::{HeaderMap, HeaderName, HeaderValue};

verus! {

/// The header map of `reqwest`, which is that of the `http` crate.
#[verifier::external_type_specification]
#[verifier::external_body]
#[verifier::reject_recursive_types(T)]
pub struct ExHeaderMap<T>(reqwest::header::HeaderMap<T>);

/// A header name that passed validation.
#[verifier::external_type_specification]
#[verifier::external_body]
pub struct ExHeaderName(reqwest::header::HeaderName);

/// A header value that passed validation.
#[verifier::external_type_specification]
#[verifier::external_body]
pub struct ExHeaderValue(reqwest::header::HeaderValue);

/// The name that `HeaderName::from_str` reads from a text, if the text is a
/// valid header name.
pub uninterp spec fn header_name_of(text: Seq<char>) -> Option<HeaderName>;

/// The value that `HeaderValue::from_str` reads from a text, if the text is
/// a valid header value.
pub uninterp spec fn header_value_of(text: Seq<char>) -> Option<HeaderValue>;

/// What a header map holds: for each name in it, the value that is sent
/// under that name.
pub uninterp spec fn header_entries(map: HeaderMap<HeaderValue>) -> Map<HeaderName, HeaderValue>;

/// The header set that holds nothing.
pub open spec fn no_headers() -> Map<HeaderName, HeaderValue> {
    Map::empty()
}

/// Whether a character may stand in a header name: a letter or a digit of
/// ASCII, or one of the marks that HTTP allows in a token.
pub open spec fn is_token_char(c: char) -> bool {
    ('a' <= c && c <= 'z') || ('A' <= c && c <= 'Z') || ('0' <= c && c <= '9') || c == '!' || c
        == '#' || c == '$' || c == '%' || c == '&' || c == '\'' || c == '*' || c == '+' || c == '-'
        || c == '.' || c == '^' || c == '_' || c == '`' || c == '|' || c == '~'
}

/// Whether a text is a valid header name: it is not empty, no longer than
/// 65535 characters, and made of token characters alone.
pub open spec fn is_header_name_text(text: Seq<char>) -> bool {
    1 <= text.len() <= 0xffff && forall|i: int|
        0 <= i < text.len() ==> is_token_char(#[trigger] text[i])
}

/// Calls `HeaderName::from_str`, which takes a text of 1 to 65535 bytes, each
/// of them a byte that the table `HEADER_CHARS` of the `http` crate maps to
/// itself or to its lower case, and refuses every other text. All such bytes
/// are ASCII, so the contract says the same over the characters of the text.
/// It names the value.
#[verifier::external_body]
pub(crate) fn parse_name(text: &str) -> (r: Option<HeaderName>)
    ensures
        r == header_name_of(text@),
        r is Some <==> is_header_name_text(text@),
{
    HeaderName::from_str(text).ok()
}

/// Whether every character of a text may stand in a header value: none is a
/// control character, but for the tab.
pub open spec fn is_header_value_text(text: Seq<char>) -> bool {
    forall|i: int|
        0 <= i < text.len() ==> {
            let c = #[trigger] text[i];
            (' ' <= c && c != '\u{7f}') || c == '\t'
        }
}

/// Calls `HeaderValue::from_str`, which takes a text whose bytes are all 32 or
/// more and not 127, or the tab, and refuses every other text. The contract
/// says so over the characters of the text, and names the value.
#[verifier::external_body]
pub(crate) fn parse_value(text: &str) -> (r: Option<HeaderValue>)
    ensures
        r == header_value_of(text@),
        r is Some <==> is_header_value_text(text@),
{
    HeaderValue::from_str(text).ok()
}

/// Calls `HeaderMap::new`: a map that holds nothing.
#[verifier::external_body]
pub(crate) fn empty() -> (r: HeaderMap<HeaderValue>)
    ensures
        header_entries(r) == no_headers(),
{
    HeaderMap::new()
}

/// Calls `HeaderMap::try_insert`, which is `insert` without its panic, and
/// says whether the map took the entry. Where it did, the map holds `value`
/// under `name` in place of whatever it held there, and the rest as before.
/// A map refuses only where its table would grow beyond 32768 places or it
/// holds that many names, neither of which can be with fewer than 128 names
/// in it: such a map takes the entry.
#[verifier::external_body]
pub(crate) fn insert(map: &mut HeaderMap<HeaderValue>, name: HeaderName, value: HeaderValue) -> (r:
    bool)
    ensures
        r ==> header_entries(*final(map)) == header_entries(*old(map)).insert(name, value),
        header_entries(*old(map)).dom().finite() && header_entries(*old(map)).dom().len() < 128
            ==> r,
{
    map.try_insert(name, value).is_ok()
}

/// Whether each pair is a text that is a valid header name with a text that
/// is a valid header value.
pub open spec fn headers_well_formed(headers: Seq<(&str, &str)>) -> bool {
    forall|i: int|
        0 <= i < headers.len() ==> is_header_name_text((#[trigger] headers[i]).0@)
            && is_header_value_text(headers[i].1@)
}

/// Whether each pair is a valid header name with a valid header value.
pub open spec fn headers_valid(headers: Seq<(&str, &str)>) -> bool {
    forall|i: int|
        0 <= i < headers.len() ==> header_name_of((#[trigger] headers[i]).0@) is Some
            && header_value_of(headers[i].1@) is Some
}

/// The header set that valid pairs give when they are entered in order: of
/// two pairs with one name the later one stays.
pub open spec fn header_set(headers: Seq<(&str, &str)>) -> Map<HeaderName, HeaderValue>
    decreases headers.len(),
{
    if headers.len() == 0 {
        Map::empty()
    } else {
        header_set(headers.drop_last()).insert(
            header_name_of(headers.last().0@).unwrap(),
            header_value_of(headers.last().1@).unwrap(),
        )
    }
}

/// Every pair that a header set was made from has its name in the set, and
/// its value stands under that name unless a later pair has the same name.
pub proof fn lemma_headers_present(headers: Seq<(&str, &str)>, i: int)
    requires
        headers_valid(headers),
        0 <= i < headers.len(),
    ensures
        header_set(headers).contains_key(header_name_of(headers[i].0@).unwrap()),
        (forall|j: int|
            i < j < headers.len() ==> header_name_of((#[trigger] headers[j]).0@).unwrap()
                != header_name_of(headers[i].0@).unwrap()) ==> header_set(headers)[header_name_of(
            headers[i].0@,
        ).unwrap()] == header_value_of(headers[i].1@).unwrap(),
    decreases headers.len(),
{
    if i < headers.len() - 1 {
        let rest = headers.drop_last();
        assert forall|j: int| 0 <= j < rest.len() implies header_name_of(
            (#[trigger] rest[j]).0@,
        ) is Some && header_value_of(rest[j].1@) is Some by {
            assert(rest[j] == headers[j]);
        }
        lemma_headers_present(rest, i);
        if forall|j: int|
            i < j < headers.len() ==> header_name_of((#[trigger] headers[j]).0@).unwrap()
                != header_name_of(headers[i].0@).unwrap() {
            assert forall|j: int| i < j < rest.len() implies header_name_of(
                (#[trigger] rest[j]).0@,
            ).unwrap() != header_name_of(rest[i].0@).unwrap() by {
                assert(rest[j] == headers[j]);
            }
        }
    }
}

} // verus!
