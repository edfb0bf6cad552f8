//! Errors related to a request.
//!
//! Every failure is one of three kinds: a field that failed validation
//! before anything was sent, an error that the service reported, or a
//! failure of the exchange itself. Each error type has a view that holds its
//! strings as sequences of characters, and a `message` function whose result
//! is stated over that view.

use crate::bindings::{debug_quoted, debug_string, http_error_text, json_error_text};
use crate::text::{decimal, decimal_string};
use vstd::prelude::*;
use vstd::string::StringExecFns;

verus! {

/// A request field that failed validation, with the offending value.
#[derive(Debug)]
pub enum ValidationError {
    /// Password does not meet format requirements.
    InvalidPasswordFormat(String),
    /// Alias does not meet format requirements
    InvalidAliasFormat(String),
    /// URL does not meet format requirements.
    InvalidUrlFormat(String),
    /// Max-clicks must be a positive integer.
    InvalidMaxClicks(u32),
    /// Emoji sequence is invalid
    InvalidEmojiSequence(String),
}

/// What a `ValidationError` holds.
pub enum ValidationErrorView {
    InvalidPasswordFormat(Seq<char>),
    InvalidAliasFormat(Seq<char>),
    InvalidUrlFormat(Seq<char>),
    InvalidMaxClicks(u32),
    InvalidEmojiSequence(Seq<char>),
}

impl View for ValidationError {
    type V = ValidationErrorView;

    open spec fn view(&self) -> ValidationErrorView {
        match self {
            ValidationError::InvalidPasswordFormat(value) => {
                ValidationErrorView::InvalidPasswordFormat(value@)
            },
            ValidationError::InvalidAliasFormat(value) => ValidationErrorView::InvalidAliasFormat(
                value@,
            ),
            ValidationError::InvalidUrlFormat(value) => ValidationErrorView::InvalidUrlFormat(
                value@,
            ),
            ValidationError::InvalidMaxClicks(value) => ValidationErrorView::InvalidMaxClicks(
                *value,
            ),
            ValidationError::InvalidEmojiSequence(value) => {
                ValidationErrorView::InvalidEmojiSequence(value@)
            },
        }
    }
}

impl ValidationErrorView {
    /// The text that describes the error.
    pub open spec fn message(self) -> Seq<char> {
        match self {
            ValidationErrorView::InvalidPasswordFormat(value) => "Invalid password format: "@
                + value,
            ValidationErrorView::InvalidAliasFormat(value) => "Invalid alias format: "@ + value,
            ValidationErrorView::InvalidUrlFormat(value) => "Invalid URL format: "@ + value,
            ValidationErrorView::InvalidMaxClicks(value) => {
                "Max-clicks must be a positive integer, got: "@ + decimal(value as nat)
            },
            ValidationErrorView::InvalidEmojiSequence(value) => "Invalid emoji sequence: "@
                + value,
        }
    }
}

impl ValidationError {
    /// The text that describes the error.
    pub fn message(&self) -> (text: String)
        ensures
            text@ == self@.message(),
    {
        match self {
            ValidationError::InvalidPasswordFormat(value) => String::from_str(
                "Invalid password format: ",
            ).concat(value.as_str()),
            ValidationError::InvalidAliasFormat(value) => String::from_str(
                "Invalid alias format: ",
            ).concat(value.as_str()),
            ValidationError::InvalidUrlFormat(value) => String::from_str(
                "Invalid URL format: ",
            ).concat(value.as_str()),
            ValidationError::InvalidMaxClicks(value) => {
                let number = decimal_string(*value);
                String::from_str("Max-clicks must be a positive integer, got: ").concat(
                    number.as_str(),
                )
            },
            ValidationError::InvalidEmojiSequence(value) => String::from_str(
                "Invalid emoji sequence: ",
            ).concat(value.as_str()),
        }
    }
}

/// An error that the service reported.
#[derive(Debug)]
pub enum ApiError {
    /// The URL does not match the expected format.
    UrlError,
    /// The alias is already in use or invalid.
    AliasError,
    /// The password provided is incorrect.
    PasswordError,
    /// The max clicks value is invalid.
    MaxClicksError,
    /// The emoji sequence is already in use or invalid.
    EmojiError,
    /// The rate limit for the API has been exceeded.
    RateLimitExceeded,
    /// Other unexpected errors from the API.
    Other(String),
}

/// What an `ApiError` holds.
pub enum ApiErrorView {
    UrlError,
    AliasError,
    PasswordError,
    MaxClicksError,
    EmojiError,
    RateLimitExceeded,
    Other(Seq<char>),
}

impl View for ApiError {
    type V = ApiErrorView;

    open spec fn view(&self) -> ApiErrorView {
        match self {
            ApiError::UrlError => ApiErrorView::UrlError,
            ApiError::AliasError => ApiErrorView::AliasError,
            ApiError::PasswordError => ApiErrorView::PasswordError,
            ApiError::MaxClicksError => ApiErrorView::MaxClicksError,
            ApiError::EmojiError => ApiErrorView::EmojiError,
            ApiError::RateLimitExceeded => ApiErrorView::RateLimitExceeded,
            ApiError::Other(label) => ApiErrorView::Other(label@),
        }
    }
}

impl ApiErrorView {
    /// The error that the service means by `label`. A label that is none of
    /// the five known ones is kept as it came.
    pub open spec fn from_label(label: Seq<char>) -> ApiErrorView {
        if label == "UrlError"@ {
            ApiErrorView::UrlError
        } else if label == "AliasError"@ {
            ApiErrorView::AliasError
        } else if label == "PasswordError"@ {
            ApiErrorView::PasswordError
        } else if label == "MaxClicksError"@ {
            ApiErrorView::MaxClicksError
        } else if label == "EmojiError"@ {
            ApiErrorView::EmojiError
        } else {
            ApiErrorView::Other(label)
        }
    }

    /// The text that describes the error.
    pub open spec fn message(self) -> Seq<char> {
        match self {
            ApiErrorView::UrlError => "Invalid URL format"@,
            ApiErrorView::AliasError => "Alias already in use or invalid"@,
            ApiErrorView::PasswordError => "Incorrect password provided"@,
            ApiErrorView::MaxClicksError => "Invalid max clicks value"@,
            ApiErrorView::EmojiError => "Invalid or already used emoji sequence"@,
            ApiErrorView::RateLimitExceeded => "Rate limit exceeded for the API"@,
            ApiErrorView::Other(label) => "API error: "@ + label,
        }
    }

    /// The error as a programmer reads it: the variant's name, and for
    /// `Other` the label in quotes and brackets after it.
    pub open spec fn debug_text(self) -> Seq<char> {
        match self {
            ApiErrorView::UrlError => "UrlError"@,
            ApiErrorView::AliasError => "AliasError"@,
            ApiErrorView::PasswordError => "PasswordError"@,
            ApiErrorView::MaxClicksError => "MaxClicksError"@,
            ApiErrorView::EmojiError => "EmojiError"@,
            ApiErrorView::RateLimitExceeded => "RateLimitExceeded"@,
            ApiErrorView::Other(label) => "Other("@ + debug_quoted(label) + ")"@,
        }
    }
}

/// Whether two strings hold the same characters.
fn same_text(a: &str, b: &str) -> (same: bool)
    ensures
        same == (a@ == b@),
{
    String::from_str(a) == String::from_str(b)
}

impl ApiError {
    /// The error that the service means by the label in its error reply.
    pub fn from_label(label: &str) -> (err: ApiError)
        ensures
            err@ == ApiErrorView::from_label(label@),
    {
        if same_text(label, "UrlError") {
            ApiError::UrlError
        } else if same_text(label, "AliasError") {
            ApiError::AliasError
        } else if same_text(label, "PasswordError") {
            ApiError::PasswordError
        } else if same_text(label, "MaxClicksError") {
            ApiError::MaxClicksError
        } else if same_text(label, "EmojiError") {
            ApiError::EmojiError
        } else {
            ApiError::Other(String::from_str(label))
        }
    }

    /// The text that describes the error.
    pub fn message(&self) -> (text: String)
        ensures
            text@ == self@.message(),
    {
        match self {
            ApiError::UrlError => String::from_str("Invalid URL format"),
            ApiError::AliasError => String::from_str("Alias already in use or invalid"),
            ApiError::PasswordError => String::from_str("Incorrect password provided"),
            ApiError::MaxClicksError => String::from_str("Invalid max clicks value"),
            ApiError::EmojiError => String::from_str("Invalid or already used emoji sequence"),
            ApiError::RateLimitExceeded => String::from_str("Rate limit exceeded for the API"),
            ApiError::Other(label) => String::from_str("API error: ").concat(label.as_str()),
        }
    }

    /// The error as a programmer reads it.
    pub fn debug_text(&self) -> (text: String)
        ensures
            text@ == self@.debug_text(),
    {
        match self {
            ApiError::UrlError => String::from_str("UrlError"),
            ApiError::AliasError => String::from_str("AliasError"),
            ApiError::PasswordError => String::from_str("PasswordError"),
            ApiError::MaxClicksError => String::from_str("MaxClicksError"),
            ApiError::EmojiError => String::from_str("EmojiError"),
            ApiError::RateLimitExceeded => String::from_str("RateLimitExceeded"),
            ApiError::Other(label) => {
                let quoted = debug_string(label.as_str());
                String::from_str("Other(").concat(quoted.as_str()).concat(")")
            },
        }
    }
}

/// Errors that can occur when using the URL shortener client.
#[derive(Debug)]
pub enum UrlShortenerError {
    /// Validation errors related to the request parameters.
    Validation(ValidationError),
    /// Errors returned by the spoo.me API.
    Api(ApiError),
    /// Errors related to the HTTP request, such as connection issues or timeouts.
    Http(reqwest::Error),
    /// Errors related to JSON serialization or deserialization.
    Json(serde_json::Error),
    /// Other unexpected status codes or errors.
    Other(String),
}

/// What a `UrlShortenerError` holds. Of a transport or decoding error only
/// the kind is kept.
pub enum UrlShortenerErrorView {
    Validation(ValidationErrorView),
    Api(ApiErrorView),
    Http,
    Json,
    Other(Seq<char>),
}

impl View for UrlShortenerError {
    type V = UrlShortenerErrorView;

    open spec fn view(&self) -> UrlShortenerErrorView {
        match self {
            UrlShortenerError::Validation(err) => UrlShortenerErrorView::Validation(err@),
            UrlShortenerError::Api(err) => UrlShortenerErrorView::Api(err@),
            UrlShortenerError::Http(_) => UrlShortenerErrorView::Http,
            UrlShortenerError::Json(_) => UrlShortenerErrorView::Json,
            UrlShortenerError::Other(text) => UrlShortenerErrorView::Other(text@),
        }
    }
}

impl UrlShortenerErrorView {
    /// How the text that describes the error begins.
    pub open spec fn prefix(self) -> Seq<char> {
        match self {
            UrlShortenerErrorView::Validation(_) => "Validation error: "@,
            UrlShortenerErrorView::Api(_) => "API error: "@,
            UrlShortenerErrorView::Http => "HTTP error: "@,
            UrlShortenerErrorView::Json => "JSON error: "@,
            UrlShortenerErrorView::Other(_) => "Other error: "@,
        }
    }

    /// Whether `detail` is what follows the prefix in the text that describes
    /// the error. For a transport or decoding error the detail is the outside
    /// error's own message, and any text is admitted.
    pub open spec fn admits_detail(self, detail: Seq<char>) -> bool {
        match self {
            UrlShortenerErrorView::Validation(err) => detail == err.message(),
            UrlShortenerErrorView::Api(err) => detail == err.debug_text(),
            UrlShortenerErrorView::Http => true,
            UrlShortenerErrorView::Json => true,
            UrlShortenerErrorView::Other(text) => detail == text,
        }
    }
}

impl UrlShortenerError {
    /// The text that describes the error: the prefix of its kind, then the
    /// detail.
    pub fn message(&self) -> (text: String)
        ensures
            exists|detail: Seq<char>| #[trigger]
                self@.admits_detail(detail) && text@ == self@.prefix() + detail,
    {
        match self {
            UrlShortenerError::Validation(err) => {
                let detail = err.message();
                assert(self@.admits_detail(detail@));
                String::from_str("Validation error: ").concat(detail.as_str())
            },
            UrlShortenerError::Api(err) => {
                let detail = err.debug_text();
                assert(self@.admits_detail(detail@));
                String::from_str("API error: ").concat(detail.as_str())
            },
            UrlShortenerError::Http(err) => {
                let detail = http_error_text(err);
                assert(self@.admits_detail(detail@));
                String::from_str("HTTP error: ").concat(detail.as_str())
            },
            UrlShortenerError::Json(err) => {
                let detail = json_error_text(err);
                assert(self@.admits_detail(detail@));
                String::from_str("JSON error: ").concat(detail.as_str())
            },
            UrlShortenerError::Other(text) => {
                assert(self@.admits_detail(text@));
                String::from_str("Other error: ").concat(text.as_str())
            },
        }
    }
}

} // verus!
