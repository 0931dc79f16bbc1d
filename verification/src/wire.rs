//! The calls this library makes into `serde_json`, `http` and `reqwest`.
//!
//! Each function here hands plain text to one of those crates and takes a
//! plain answer back. Their contracts are taken on trust: nothing in this
//! crate proves them.

use vstd::prelude::*;

verus! {

/// What `serde_json` reads as the integer stored under `key` at the top level
/// of `document`: `None` when the text is not JSON, when it is not an object,
/// when the object has no such member, or when the member is not an integer
/// that fits in `i64`.
pub uninterp spec fn json_integer_member(document: Seq<char>, key: Seq<char>) -> Option<i64>;

/// What `Url::parse` makes of `input`: `None` when it is rejected, else the
/// serialised form of the URL together with whether the URL names a host.
pub uninterp spec fn url_parsed(input: Seq<char>) -> Option<(Seq<char>, bool)>;

/// What came back from the URL parser, as plain text.
pub open spec fn parsed_model(parsed: Option<(String, bool)>) -> Option<(Seq<char>, bool)> {
    match parsed {
        Some((text, has_host)) => Some((text@, has_host)),
        None => None,
    }
}

/// A character that may stand in a header value: a tab, or anything from the
/// space upwards except DEL.
pub open spec fn header_value_char(c: char) -> bool {
    c == '\t' || (' ' <= c && c != '\x7f')
}

/// Header values are made of tabs and of characters that are not controls.
pub open spec fn valid_header_value(value: Seq<char>) -> bool {
    forall|i: int| 0 <= i < value.len() ==> header_value_char(#[trigger] value[i])
}

/// A character that may stand in a header name: an ASCII letter or digit, or
/// one of ``!#$%&'*+-.^_`|~``.
pub open spec fn header_name_char(c: char) -> bool {
    ||| ('a' <= c && c <= 'z')
    ||| ('A' <= c && c <= 'Z')
    ||| ('0' <= c && c <= '9')
    ||| c == '!'
    ||| ('#' <= c && c <= '\'')
    ||| c == '*'
    ||| c == '+'
    ||| c == '-'
    ||| c == '.'
    ||| c == '^'
    ||| c == '_'
    ||| c == '`'
    ||| c == '|'
    ||| c == '~'
}

/// Header names are non-empty, at most 65535 characters long, and made of
/// name characters only.
pub open spec fn valid_header_name(name: Seq<char>) -> bool {
    &&& 1 <= name.len() <= 65535
    &&& forall|i: int| 0 <= i < name.len() ==> header_name_char(#[trigger] name[i])
}

/// Calls `serde_json::from_str` for a `serde_json::Value`, indexes the value
/// by `key` and reads the member with `Value::as_i64`. The contract only names
/// the outcome: it is a function of the two texts.
#[verifier::external_body]
pub(crate) fn read_integer_member(document: &str, key: &str) -> (member: Option<i64>)
    ensures
        member == json_integer_member(document@, key@),
{
    match serde_json::from_str::<serde_json::Value>(document) {
        Ok(value) => value[key].as_i64(),
        Err(_) => None,
    }
}

/// Calls `http::HeaderValue::from_str`, which accepts a text exactly when each
/// of its bytes is a tab or is at least 32 and not 127. Every byte of a
/// character beyond ASCII is above 127, so the test can be stated per character.
#[verifier::external_body]
pub(crate) fn header_value_accepted(value: &str) -> (accepted: bool)
    ensures
        accepted == valid_header_value(value@),
{
    http::HeaderValue::from_str(value).is_ok()
}

/// Calls `http::HeaderName::from_bytes`, which accepts between 1 and 65535
/// bytes, each of them a name character.
#[verifier::external_body]
pub(crate) fn header_name_accepted(name: &str) -> (accepted: bool)
    ensures
        accepted == valid_header_name(name@),
{
    http::HeaderName::from_bytes(name.as_bytes()).is_ok()
}

/// Calls `reqwest::Url::parse` and, on success, reads the URL back with
/// `Url::as_str` and `Url::has_host`. The contract only names the outcome: it
/// is a function of the text.
#[verifier::external_body]
pub(crate) fn parse_url(input: &str) -> (parsed: Option<(String, bool)>)
    ensures
        parsed_model(parsed) == url_parsed(input@),
{
    match reqwest::Url::parse(input) {
        Ok(url) => Some((String::from(url.as_str()), url.has_host())),
        Err(_) => None,
    }
}

} // verus!
