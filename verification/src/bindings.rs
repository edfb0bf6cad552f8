//! The calls this crate makes into code that is not verified here: the
//! `regex` and `serde_json` crates, the error types of `reqwest` and
//! `serde_json`, and two functions of the standard library.
//!
//! Each contract below is believed, not proved. Where the result of a call is
//! a function of its arguments but too long to write out, the result has a
//! name (a spec function without a body) and the contract says only that the
//! call returns what the name stands for.

use vstd::prelude::*;

verus! {

/// Whether `c` has the Unicode property `Alphabetic`, which is what
/// `char::is_alphabetic` reports.
pub uninterp spec fn char_is_alphabetic(c: char) -> bool;

/// What searching `haystack` with the regular expression `pattern` gives:
/// `None` where `regex::Regex::new` refuses the pattern, else whether
/// `regex::Regex::is_match` finds a match anywhere in `haystack`.
pub uninterp spec fn regex_search(pattern: Seq<char>, haystack: Seq<char>) -> Option<bool>;

/// The string stored under `key` in the JSON document `text`, as
/// `serde_json` reads it: `None` where `text` is no JSON document, where the
/// document is no object, where the object has no member `key`, and where
/// that member is not a string.
pub uninterp spec fn json_string_member(text: Seq<char>, key: Seq<char>) -> Option<Seq<char>>;

/// `s` as the standard library's `Debug` formatting writes a string: in
/// double quotes, with the characters that need it escaped.
pub uninterp spec fn debug_quoted(s: Seq<char>) -> Seq<char>;

/// The transport's error, `reqwest::Error`. Nothing inside it is read.
#[verifier::external_type_specification]
#[verifier::external_body]
pub struct ExReqwestError(reqwest::Error);

/// The decoder's error, `serde_json::Error`. Nothing inside it is read.
#[verifier::external_type_specification]
#[verifier::external_body]
pub struct ExJsonError(serde_json::Error);

/// `char::is_alphabetic`: the result depends on the character alone.
pub assume_specification[ char::is_alphabetic ](c: char) -> (r: bool)
    ensures
        r == char_is_alphabetic(c),
;

/// Compiles `pattern` with `regex::Regex::new` and searches `haystack` with
/// `regex::Regex::is_match`. Neither call panics; a pattern that does not
/// compile gives `None`. The outcome depends on the two strings alone.
#[verifier::external_body]
pub(crate) fn regex_is_match(pattern: &str, haystack: &str) -> (r: Option<bool>)
    ensures
        r == regex_search(pattern@, haystack@),
{
    match regex::Regex::new(pattern) {
        Ok(re) => Some(re.is_match(haystack)),
        Err(_) => None,
    }
}

/// Parses `text` with `serde_json::from_str` into a `serde_json::Value`,
/// looks `key` up with `Value::get` and reads the member with
/// `Value::as_str`. A failure of any of the three gives `None`; none of them
/// panics.
#[verifier::external_body]
pub(crate) fn json_string_field(text: &str, key: &str) -> (r: Option<String>)
    ensures
        r.deep_view() == json_string_member(text@, key@),
{
    match serde_json::from_str::<serde_json::Value>(text) {
        Ok(value) => value.get(key).and_then(|member| member.as_str()).map(String::from),
        Err(_) => None,
    }
}

/// Formats `s` with the standard library's `Debug` implementation for `str`.
#[verifier::external_body]
pub(crate) fn debug_string(s: &str) -> (r: String)
    ensures
        r@ == debug_quoted(s@),
{
    format!("{:?}", s)
}

/// The message of a transport error, from the `Display` implementation of
/// `reqwest::Error`. Nothing is claimed of the text.
#[verifier::external_body]
pub(crate) fn http_error_text(err: &reqwest::Error) -> (r: String) {
    format!("{}", err)
}

/// The message of a decoding error, from the `Display` implementation of
/// `serde_json::Error`. Nothing is claimed of the text.
#[verifier::external_body]
pub(crate) fn json_error_text(err: &serde_json::Error) -> (r: String) {
    format!("{}", err)
}

} // verus!
