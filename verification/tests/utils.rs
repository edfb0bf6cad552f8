use spoo_me::text::{chars_of, contains, decimal_string};
use spoo_me::utils::{
    alias_verdict, is_valid_alias, is_valid_max_clicks, is_valid_password, is_valid_url,
    password_verdict, url_verdict,
};

#[test]
fn test_valid_password() {
    assert!(is_valid_password("Valid@123"));
    assert!(!is_valid_password("short"));
    assert!(!is_valid_password("NoSpecial123"));
    assert!(!is_valid_password("NoDigit@"));
    assert!(!is_valid_password("Invalid@@@"));
}

#[test]
fn test_valid_url() {
    assert!(is_valid_url("https://example.com", "spoo.me"));
    assert!(is_valid_url("ftp://example.com", "spoo.me"));
    assert!(!is_valid_url("https://spoo.me/test", "spoo.me"));
    assert!(!is_valid_url("https://example.com/..", "spoo.me"));
}

#[test]
fn utils_test_valid_url() {
    assert!(is_valid_url("https://example.com", "spoo.me"));
    assert!(is_valid_url("ftp://example.com", "spoo.me"));
    assert!(is_valid_url("https://example.com/long/url", "spoo.me"));
    assert!(!is_valid_url("https://spoo.me/test", "spoo.me"));
    assert!(!is_valid_url("https://example.com/..", "spoo.me"));
}

#[test]
fn test_valid_alias() {
    assert!(is_valid_alias("valid_alias"));
    assert!(is_valid_alias("valid123"));
    assert!(!is_valid_alias("invalid alias"));
    assert!(!is_valid_alias("too_long_alias_12345"));
    assert!(!is_valid_alias(""));
}

#[test]
fn test_valid_max_clicks() {
    assert!(!is_valid_max_clicks(0));
    assert!(is_valid_max_clicks(1));
    assert!(is_valid_max_clicks(10));
    assert!(is_valid_max_clicks(u32::MAX));
}

#[test]
fn password_shorter_than_eight_bytes_is_invalid() {
    assert!(!is_valid_password(""));
    assert!(!is_valid_password("a"));
    assert!(!is_valid_password("Ab1@xyz"));
    assert!(is_valid_password("Ab1@xyzw"));
}

#[test]
fn password_length_is_counted_in_bytes() {
    // Six characters, ten bytes.
    let accented = "\u{e9}\u{e9}1@\u{e9}\u{e9}";
    assert_eq!(accented.chars().count(), 6);
    assert_eq!(accented.len(), 10);
    assert!(is_valid_password(accented));
    // Seven characters, seven bytes.
    assert!(!is_valid_password("ee1@eee"));
}

#[test]
fn password_with_adjacent_specials_is_invalid() {
    assert!(!is_valid_password("Valid@@123"));
    assert!(!is_valid_password("Valid..123"));
    assert!(!is_valid_password("Valid@.123"));
    assert!(!is_valid_password("Valid.@123"));
    assert!(!is_valid_password("..Valid123"));
    assert!(!is_valid_password("Valid123.@"));
    assert!(is_valid_password("Valid@1.23"));
    assert!(is_valid_password("@Valid.123"));
}

#[test]
fn password_needs_letter_digit_and_special() {
    assert!(!is_valid_password("12345678@"));
    assert!(!is_valid_password("abcdefgh@"));
    assert!(!is_valid_password("abcdefgh1"));
    assert!(is_valid_password("abcdefg1."));
    // A letter outside ASCII counts as a letter, a digit outside ASCII is no digit.
    assert!(is_valid_password("\u{4eac}\u{4eac}1@23456"));
    assert!(!is_valid_password("abcdefgh@\u{0663}"));
}

#[test]
fn password_verdict_follows_the_letter_finding() {
    assert!(password_verdict("Valid@123", true));
    assert!(!password_verdict("Valid@123", false));
    assert!(password_verdict("1234567@", true));
    assert!(!password_verdict("123456@", true));
    assert!(!password_verdict("abcdefg@", true));
    assert!(!password_verdict("12345678", true));
    assert!(!password_verdict("1234@@78", true));
}

#[test]
fn url_scheme_and_characters() {
    assert!(is_valid_url("http://example.com", "spoo.me"));
    assert!(!is_valid_url("gopher://example.com", "spoo.me"));
    assert!(!is_valid_url("example.com", "spoo.me"));
    assert!(!is_valid_url("https://", "spoo.me"));
    assert!(!is_valid_url("xhttps://example.com", "spoo.me"));
    assert!(!is_valid_url("https://example.com/a b", "spoo.me"));
    assert!(!is_valid_url("https://example.com/\"a\"", "spoo.me"));
    assert!(!is_valid_url("", "spoo.me"));
    assert!(is_valid_url("https://example.com/a.b?c=d&e=f#g", "spoo.me"));
}

#[test]
fn url_exclusion_is_a_parameter() {
    assert!(is_valid_url("https://spoo.me/test", "https://short.example"));
    assert!(!is_valid_url("https://short.example/abc", "https://short.example"));
    assert!(is_valid_url("http://short.example/abc", "https://short.example"));
    // The empty string is part of every string.
    assert!(!is_valid_url("https://example.com", ""));
}

#[test]
fn url_verdict_follows_the_format_finding() {
    assert!(url_verdict(Some(true), "https://example.com", "spoo.me"));
    assert!(!url_verdict(Some(false), "https://example.com", "spoo.me"));
    assert!(!url_verdict(None, "https://example.com", "spoo.me"));
    assert!(!url_verdict(Some(true), "https://spoo.me/x", "spoo.me"));
    assert!(!url_verdict(Some(true), "https://example.com/..", "spoo.me"));
    assert!(url_verdict(Some(true), "https://example.com/.", "spoo.me"));
}

#[test]
fn alias_length_and_characters() {
    assert!(is_valid_alias("a"));
    assert!(is_valid_alias("a-b_C9"));
    assert!(is_valid_alias("123456789012345"));
    assert!(!is_valid_alias("1234567890123456"));
    assert!(!is_valid_alias("caf\u{e9}"));
    assert!(!is_valid_alias("ab\n"));
    assert!(!is_valid_alias("a.b"));
    assert!(is_valid_alias("ga"));
}

#[test]
fn alias_verdict_follows_the_format_finding() {
    assert!(alias_verdict(Some(true), "valid_alias"));
    assert!(!alias_verdict(Some(false), "valid_alias"));
    assert!(!alias_verdict(None, "valid_alias"));
    assert!(!alias_verdict(Some(true), ""));
    assert!(alias_verdict(Some(true), "123456789012345"));
    assert!(!alias_verdict(Some(true), "1234567890123456"));
}

#[test]
fn validators_give_the_same_answer_again() {
    for _ in 0..3 {
        assert!(is_valid_password("Valid@123"));
        assert!(!is_valid_password("Invalid@@@"));
        assert!(is_valid_url("https://example.com", "spoo.me"));
        assert!(!is_valid_url("https://spoo.me/test", "spoo.me"));
        assert!(is_valid_alias("valid_alias"));
        assert!(!is_valid_alias("invalid alias"));
        assert!(is_valid_max_clicks(1));
        assert!(!is_valid_max_clicks(0));
    }
}

#[test]
fn chars_of_keeps_every_character() {
    assert_eq!(chars_of(""), Vec::<char>::new());
    assert_eq!(chars_of("a\u{e9}@"), vec!['a', '\u{e9}', '@']);
}

#[test]
fn contains_finds_contiguous_parts() {
    let hay = chars_of("https://example.com/..");
    assert!(contains(&hay, &chars_of("..")));
    assert!(contains(&hay, &chars_of("https")));
    assert!(contains(&hay, &chars_of("")));
    assert!(contains(&hay, &chars_of("https://example.com/..")));
    assert!(!contains(&hay, &chars_of("https://example.com/...")));
    assert!(!contains(&hay, &chars_of("spoo.me")));
    assert!(!contains(&hay, &chars_of("e.x")));
    assert!(contains(&chars_of(""), &chars_of("")));
    assert!(!contains(&chars_of(""), &chars_of("a")));
    assert!(contains(&chars_of("aab"), &chars_of("ab")));
}

#[test]
fn decimal_string_writes_numerals() {
    assert_eq!(decimal_string(0), "0");
    assert_eq!(decimal_string(7), "7");
    assert_eq!(decimal_string(10), "10");
    assert_eq!(decimal_string(109), "109");
    assert_eq!(decimal_string(1234567890), "1234567890");
    assert_eq!(decimal_string(u32::MAX), "4294967295");
}
