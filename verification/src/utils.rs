//! Validators for the fields of a request.
//!
//! Each validator is a function of its arguments alone. Its contract equates
//! the result with a spec function over the characters of the input, so two
//! calls on the same input cannot differ.
//!
//! The format of a URL and of an alias is a regular expression, and the
//! `regex` crate does the matching. The contracts name the outcome of that
//! search (`regex_search`), and `url_verdict` and `alias_verdict` say what
//! follows from each outcome. Whether a character is a letter is asked of
//! the standard library in the same way (`char_is_alphabetic`).

use crate::bindings::{char_is_alphabetic, regex_is_match, regex_search};
use crate::text::{chars_of, contains, has_substring, occurs_at, utf8_len};
use vstd::prelude::*;

verus! {

/// The format of a URL that may be shortened: one of three schemes, `://`,
/// then at least one character, none of them a space or a double quote.
pub const URL_REGEX: &'static str = r#"^(ftp|http|https):\/\/[^ "]+$"#;

/// The format of an alias or short code: letters, digits, `_` and `-`.
pub const ALIAS_REGEX: &'static str = r"^[a-zA-Z0-9_-]*$";

/// Least number of bytes in a password.
pub const MIN_PASSWORD_LEN: usize = 8;

/// Greatest number of bytes in an alias or short code.
pub const MAX_ALIAS_LEN: usize = 15;

/// `c` is one of the ten ASCII digits.
pub open spec fn is_digit(c: char) -> bool {
    '0' <= c && c <= '9'
}

/// `c` is one of the two special characters a password must have one of.
pub open spec fn is_special(c: char) -> bool {
    c == '@' || c == '.'
}

/// Some character of `s` is alphabetic.
pub open spec fn has_letter(s: Seq<char>) -> bool {
    exists|i: int| 0 <= i < s.len() && char_is_alphabetic(#[trigger] s[i])
}

/// Some character of `s` is an ASCII digit.
pub open spec fn has_digit(s: Seq<char>) -> bool {
    exists|i: int| 0 <= i < s.len() && is_digit(#[trigger] s[i])
}

/// Some character of `s` is `@` or `.`.
pub open spec fn has_special(s: Seq<char>) -> bool {
    exists|i: int| 0 <= i < s.len() && is_special(#[trigger] s[i])
}

/// Two special characters stand side by side in `s`: one of the pairs `..`,
/// `@@`, `@.` and `.@` is part of it.
pub open spec fn has_adjacent_specials(s: Seq<char>) -> bool {
    ||| has_substring(s, seq!['.', '.'])
    ||| has_substring(s, seq!['@', '@'])
    ||| has_substring(s, seq!['@', '.'])
    ||| has_substring(s, seq!['.', '@'])
}

/// The password rule, given whether the password holds a letter.
pub open spec fn password_ok(s: Seq<char>, letter: bool) -> bool {
    &&& utf8_len(s) >= MIN_PASSWORD_LEN
    &&& letter
    &&& has_digit(s)
    &&& has_special(s)
    &&& !has_adjacent_specials(s)
}

/// A password is valid when it takes at least eight bytes, holds a letter, a
/// digit and one of `@` and `.`, and no two of `@` and `.` side by side.
pub open spec fn valid_password(s: Seq<char>) -> bool {
    password_ok(s, has_letter(s))
}

/// The URL rule, given what the search for the URL format found.
pub open spec fn url_ok(format_match: Option<bool>, url: Seq<char>, exclusion: Seq<char>) -> bool {
    &&& format_match == Some(true)
    &&& !has_substring(url, exclusion)
    &&& !has_substring(url, seq!['.', '.'])
}

/// A URL is valid when it has the URL format, does not hold `exclusion` (the
/// service's own address) and does not hold `..`.
pub open spec fn valid_url(url: Seq<char>, exclusion: Seq<char>) -> bool {
    url_ok(regex_search(URL_REGEX@, url), url, exclusion)
}

/// The alias rule, given what the search for the alias format found.
pub open spec fn alias_ok(format_match: Option<bool>, alias: Seq<char>) -> bool {
    &&& format_match == Some(true)
    &&& alias.len() > 0
    &&& utf8_len(alias) <= MAX_ALIAS_LEN
}

/// An alias or short code is valid when it has the alias format, is not
/// empty and takes at most fifteen bytes.
pub open spec fn valid_alias(alias: Seq<char>) -> bool {
    alias_ok(regex_search(ALIAS_REGEX@, alias), alias)
}

/// A click limit is valid when it is positive.
pub open spec fn valid_max_clicks(max: u32) -> bool {
    max > 0
}

/// Whether some character is alphabetic.
fn any_letter(chars: &[char]) -> (found: bool)
    ensures
        found == has_letter(chars@),
{
    let mut i: usize = 0;
    while i < chars.len()
        invariant
            i <= chars.len(),
            forall|j: int| 0 <= j < i ==> !char_is_alphabetic(#[trigger] chars@[j]),
        decreases chars.len() - i,
    {
        if chars[i].is_alphabetic() {
            return true;
        }
        i += 1;
    }
    false
}

/// Whether some character is an ASCII digit.
fn any_digit(chars: &[char]) -> (found: bool)
    ensures
        found == has_digit(chars@),
{
    let mut i: usize = 0;
    while i < chars.len()
        invariant
            i <= chars.len(),
            forall|j: int| 0 <= j < i ==> !is_digit(#[trigger] chars@[j]),
        decreases chars.len() - i,
    {
        let c = chars[i];
        if '0' <= c && c <= '9' {
            return true;
        }
        i += 1;
    }
    false
}

/// Whether some character is `@` or `.`.
fn any_special(chars: &[char]) -> (found: bool)
    ensures
        found == has_special(chars@),
{
    let mut i: usize = 0;
    while i < chars.len()
        invariant
            i <= chars.len(),
            forall|j: int| 0 <= j < i ==> !is_special(#[trigger] chars@[j]),
        decreases chars.len() - i,
    {
        let c = chars[i];
        if c == '@' || c == '.' {
            return true;
        }
        i += 1;
    }
    false
}

/// Whether `first` directly followed by `second` is part of `chars`.
fn contains_pair(chars: &[char], first: char, second: char) -> (found: bool)
    ensures
        found == has_substring(chars@, seq![first, second]),
{
    let mut pair: Vec<char> = Vec::new();
    pair.push(first);
    pair.push(second);
    assert(pair@ =~= seq![first, second]);
    contains(chars, pair.as_slice())
}

/// Decides on a password once it is known whether it holds a letter.
pub fn password_verdict(pw: &str, letter: bool) -> (ok: bool)
    ensures
        ok == password_ok(pw@, letter),
{
    let chars = chars_of(pw);
    let len_ok = pw.as_bytes().len() >= MIN_PASSWORD_LEN;
    let digit = any_digit(chars.as_slice());
    let special = any_special(chars.as_slice());
    let adjacent = contains_pair(chars.as_slice(), '.', '.') || contains_pair(chars.as_slice(), '@', '@')
        || contains_pair(chars.as_slice(), '@', '.') || contains_pair(chars.as_slice(), '.', '@');
    len_ok && letter && digit && special && !adjacent
}

/// Validate password format (≥8 bytes, contains letter, digit, '@' or '.',
/// no consecutive special chars).
pub fn is_valid_password(pw: &str) -> (ok: bool)
    ensures
        ok == valid_password(pw@),
{
    let chars = chars_of(pw);
    let letter = any_letter(chars.as_slice());
    password_verdict(pw, letter)
}

/// Decides on a URL once the search for the URL format has been made.
pub fn url_verdict(format_match: Option<bool>, url: &str, exclusion: &str) -> (ok: bool)
    ensures
        ok == url_ok(format_match, url@, exclusion@),
{
    let matched = match format_match {
        Some(found) => found,
        None => false,
    };
    if !matched {
        return false;
    }
    let chars = chars_of(url);
    let excluded = chars_of(exclusion);
    !contains(chars.as_slice(), excluded.as_slice()) && !contains_pair(chars.as_slice(), '.', '.')
}

/// Validate URL format (http/https/ftp, no `exclusion` or ".." in it).
pub fn is_valid_url(url: &str, exclusion: &str) -> (ok: bool)
    ensures
        ok == valid_url(url@, exclusion@),
{
    let format_match = regex_is_match(URL_REGEX, url);
    url_verdict(format_match, url, exclusion)
}

/// Decides on an alias once the search for the alias format has been made.
pub fn alias_verdict(format_match: Option<bool>, alias: &str) -> (ok: bool)
    ensures
        ok == alias_ok(format_match, alias@),
{
    let matched = match format_match {
        Some(found) => found,
        None => false,
    };
    matched && !alias.is_empty() && alias.as_bytes().len() <= MAX_ALIAS_LEN
}

/// Validate alias format (alphanumeric, underscores, hyphens, max 15 bytes).
pub fn is_valid_alias(alias: &str) -> (ok: bool)
    ensures
        ok == valid_alias(alias@),
{
    let format_match = regex_is_match(ALIAS_REGEX, alias);
    alias_verdict(format_match, alias)
}

/// Validate max-clicks (must be a positive integer).
pub fn is_valid_max_clicks(max: u32) -> (ok: bool)
    ensures
        ok == valid_max_clicks(max),
{
    max > 0
}

/// A password of fewer than eight bytes is not valid.
pub proof fn lemma_short_password_invalid(s: Seq<char>)
    requires
        utf8_len(s) < 8,
    ensures
        !valid_password(s),
{
}

/// A password of fewer than eight characters, all of them ASCII, is not
/// valid: such a password takes one byte for each character.
pub proof fn lemma_short_ascii_password_invalid(s: Seq<char>)
    requires
        vstd::utf8::is_ascii_chars(s),
        s.len() < 8,
    ensures
        !valid_password(s),
{
    vstd::utf8::is_ascii_chars_encode_utf8(s);
}

/// Two special characters stand side by side in `s` exactly when some
/// character of `s` and the one after it are both `@` or `.`.
pub proof fn lemma_adjacent_specials_are_neighbours(s: Seq<char>)
    ensures
        has_adjacent_specials(s) <==> exists|i: int|
            0 <= i && i + 1 < s.len() && is_special(#[trigger] s[i]) && is_special(s[i + 1]),
{
    if has_adjacent_specials(s) {
        let i = choose|i: int|
            occurs_at(s, seq!['.', '.'], i) || occurs_at(s, seq!['@', '@'], i) || occurs_at(
                s,
                seq!['@', '.'],
                i,
            ) || occurs_at(s, seq!['.', '@'], i);
        let pair = s.subrange(i, i + 2);
        assert(pair[0] == s[i] && pair[1] == s[i + 1]);
        assert(is_special(s[i]) && is_special(s[i + 1]));
    }
    if exists|i: int|
        0 <= i && i + 1 < s.len() && is_special(#[trigger] s[i]) && is_special(s[i + 1]) {
        let i = choose|i: int|
            0 <= i && i + 1 < s.len() && is_special(#[trigger] s[i]) && is_special(s[i + 1]);
        assert(s.subrange(i, i + 2) =~= seq![s[i], s[i + 1]]);
        assert(occurs_at(s, seq![s[i], s[i + 1]], i));
    }
}

/// A password that holds one of `@@`, `..`, `@.` and `.@` is not valid,
/// whatever else it holds.
pub proof fn lemma_adjacent_specials_invalid(s: Seq<char>)
    requires
        has_substring(s, seq!['@', '@']) || has_substring(s, seq!['.', '.']) || has_substring(
            s,
            seq!['@', '.'],
        ) || has_substring(s, seq!['.', '@']),
    ensures
        !valid_password(s),
{
}

/// A URL that holds `..`, or the address it must not hold, is not valid,
/// whatever its format.
pub proof fn lemma_url_guards(url: Seq<char>, exclusion: Seq<char>)
    requires
        has_substring(url, seq!['.', '.']) || has_substring(url, exclusion),
    ensures
        !valid_url(url, exclusion),
        forall|format_match: Option<bool>| !url_ok(format_match, url, exclusion),
{
}

/// An alias that is empty, or takes more than fifteen bytes, is not valid,
/// whatever its characters.
pub proof fn lemma_alias_bounds(alias: Seq<char>)
    requires
        alias.len() == 0 || utf8_len(alias) > 15,
    ensures
        !valid_alias(alias),
        forall|format_match: Option<bool>| !alias_ok(format_match, alias),
{
}

/// Two calls of `is_valid_password` on the same password give the same
/// answer, the one that `valid_password` gives.
pub proof fn lemma_password_check_repeatable(pw: &str, first: bool, second: bool)
    requires
        call_ensures(is_valid_password, (pw,), first),
        call_ensures(is_valid_password, (pw,), second),
    ensures
        first == second,
        first == valid_password(pw@),
{
}

/// Two calls of `is_valid_url` on the same URL and exclusion give the same
/// answer, the one that `valid_url` gives.
pub proof fn lemma_url_check_repeatable(url: &str, exclusion: &str, first: bool, second: bool)
    requires
        call_ensures(is_valid_url, (url, exclusion), first),
        call_ensures(is_valid_url, (url, exclusion), second),
    ensures
        first == second,
        first == valid_url(url@, exclusion@),
{
}

/// Two calls of `is_valid_alias` on the same alias give the same answer, the
/// one that `valid_alias` gives.
pub proof fn lemma_alias_check_repeatable(alias: &str, first: bool, second: bool)
    requires
        call_ensures(is_valid_alias, (alias,), first),
        call_ensures(is_valid_alias, (alias,), second),
    ensures
        first == second,
        first == valid_alias(alias@),
{
}

/// Two calls of `is_valid_max_clicks` on the same number give the same
/// answer, the one that `valid_max_clicks` gives.
pub proof fn lemma_max_clicks_check_repeatable(max: u32, first: bool, second: bool)
    requires
        call_ensures(is_valid_max_clicks, (max,), first),
        call_ensures(is_valid_max_clicks, (max,), second),
    ensures
        first == second,
        first == valid_max_clicks(max),
{
}

} // verus!
