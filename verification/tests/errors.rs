use spoo_me::errors::{ApiError, UrlShortenerError, ValidationError};

#[test]
fn validation_error_messages() {
    assert_eq!(
        ValidationError::InvalidPasswordFormat("short".to_string()).message(),
        "Invalid password format: short"
    );
    assert_eq!(
        ValidationError::InvalidAliasFormat("bad alias".to_string()).message(),
        "Invalid alias format: bad alias"
    );
    assert_eq!(
        ValidationError::InvalidUrlFormat("nope".to_string()).message(),
        "Invalid URL format: nope"
    );
    assert_eq!(
        ValidationError::InvalidMaxClicks(0).message(),
        "Max-clicks must be a positive integer, got: 0"
    );
    assert_eq!(
        ValidationError::InvalidMaxClicks(4294967295).message(),
        "Max-clicks must be a positive integer, got: 4294967295"
    );
    assert_eq!(
        ValidationError::InvalidEmojiSequence("x".to_string()).message(),
        "Invalid emoji sequence: x"
    );
    assert_eq!(
        ValidationError::InvalidPasswordFormat(String::new()).message(),
        "Invalid password format: "
    );
}

#[test]
fn api_error_messages() {
    assert_eq!(ApiError::UrlError.message(), "Invalid URL format");
    assert_eq!(ApiError::AliasError.message(), "Alias already in use or invalid");
    assert_eq!(ApiError::PasswordError.message(), "Incorrect password provided");
    assert_eq!(ApiError::MaxClicksError.message(), "Invalid max clicks value");
    assert_eq!(ApiError::EmojiError.message(), "Invalid or already used emoji sequence");
    assert_eq!(ApiError::RateLimitExceeded.message(), "Rate limit exceeded for the API");
    assert_eq!(ApiError::Other("Teapot".to_string()).message(), "API error: Teapot");
}

#[test]
fn api_error_from_known_labels() {
    assert!(matches!(ApiError::from_label("UrlError"), ApiError::UrlError));
    assert!(matches!(ApiError::from_label("AliasError"), ApiError::AliasError));
    assert!(matches!(ApiError::from_label("PasswordError"), ApiError::PasswordError));
    assert!(matches!(ApiError::from_label("MaxClicksError"), ApiError::MaxClicksError));
    assert!(matches!(ApiError::from_label("EmojiError"), ApiError::EmojiError));
}

#[test]
fn api_error_from_unknown_label_keeps_the_label() {
    match ApiError::from_label("BlockedUrlError") {
        ApiError::Other(label) => assert_eq!(label, "BlockedUrlError"),
        other => panic!("unexpected {:?}", other),
    }
    match ApiError::from_label("aliaserror") {
        ApiError::Other(label) => assert_eq!(label, "aliaserror"),
        other => panic!("unexpected {:?}", other),
    }
    match ApiError::from_label("") {
        ApiError::Other(label) => assert_eq!(label, ""),
        other => panic!("unexpected {:?}", other),
    }
    // The label of the rate limit is not one the service sends in a body.
    match ApiError::from_label("RateLimitExceeded") {
        ApiError::Other(label) => assert_eq!(label, "RateLimitExceeded"),
        other => panic!("unexpected {:?}", other),
    }
}

#[test]
fn api_error_debug_text_is_the_debug_format() {
    let errors = vec![
        ApiError::UrlError,
        ApiError::AliasError,
        ApiError::PasswordError,
        ApiError::MaxClicksError,
        ApiError::EmojiError,
        ApiError::RateLimitExceeded,
        ApiError::Other("plain".to_string()),
        ApiError::Other("with \"quotes\" and \\ and \n".to_string()),
        ApiError::Other(String::new()),
    ];
    for err in errors.iter() {
        assert_eq!(err.debug_text(), format!("{:?}", err));
    }
    assert_eq!(ApiError::AliasError.debug_text(), "AliasError");
    assert_eq!(ApiError::Other("x".to_string()).debug_text(), "Other(\"x\")");
    assert_eq!(ApiError::Other("a\"b".to_string()).debug_text(), "Other(\"a\\\"b\")");
}

#[test]
fn client_error_messages() {
    assert_eq!(
        UrlShortenerError::Validation(ValidationError::InvalidMaxClicks(0)).message(),
        "Validation error: Max-clicks must be a positive integer, got: 0"
    );
    assert_eq!(
        UrlShortenerError::Validation(ValidationError::InvalidPasswordFormat("short".to_string()))
            .message(),
        "Validation error: Invalid password format: short"
    );
    assert_eq!(UrlShortenerError::Api(ApiError::AliasError).message(), "API error: AliasError");
    assert_eq!(
        UrlShortenerError::Api(ApiError::RateLimitExceeded).message(),
        "API error: RateLimitExceeded"
    );
    assert_eq!(
        UrlShortenerError::Api(ApiError::Other("x".to_string())).message(),
        "API error: Other(\"x\")"
    );
    assert_eq!(
        UrlShortenerError::Other("<html>502</html>".to_string()).message(),
        "Other error: <html>502</html>"
    );
}

#[test]
fn decoding_error_message_carries_the_decoder_text() {
    let failure = serde_json::from_str::<serde_json::Value>("{").unwrap_err();
    let detail = failure.to_string();
    assert!(!detail.is_empty());
    assert_eq!(UrlShortenerError::Json(failure).message(), format!("JSON error: {}", detail));
}

#[test]
fn transport_error_message_carries_the_transport_text() {
    let failure = reqwest::Client::new().get("not an address").build().unwrap_err();
    let detail = failure.to_string();
    assert!(!detail.is_empty());
    assert_eq!(UrlShortenerError::Http(failure).message(), format!("HTTP error: {}", detail));
}
