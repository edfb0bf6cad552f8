//! A client for the URL shortener API.
//!
//! The client decides; it does not send. For each operation it validates the
//! request and says what is to be submitted where, and it turns the status
//! and body of a reply into the error they stand for. Carrying the submission
//! to the service and decoding a successful body is left to the caller.

use crate::bindings::{json_string_field, json_string_member};
use crate::errors::{
    ApiError, ApiErrorView, UrlShortenerError, UrlShortenerErrorView, ValidationError,
    ValidationErrorView,
};
use crate::requests::{
    EmojiRequest, EmojiRequestView, ExportRequest, ExportRequestView, Form, ShortenRequest,
    ShortenRequestView, StatsRequest, StatsRequestView,
};
use crate::utils::{
    is_valid_alias, is_valid_max_clicks, is_valid_password, is_valid_url, valid_alias,
    valid_max_clicks, valid_password, valid_url,
};
use vstd::prelude::*;
use vstd::string::StringExecFns;

verus! {

/// Address of the public service.
pub const DEFAULT_BASE_URL: &'static str = "https://spoo.me";

/// Host name of the public service.
pub const DEFAULT_HOST: &'static str = "spoo.me";

/// Key of the error label in the body of a rejected request.
pub const ERROR_KEY: &'static str = "error";

/// Status with which the service answers a client that asks too often.
pub const TOO_MANY_REQUESTS: u16 = 429;

/// Name of the header that says which kind of reply the client takes.
pub const ACCEPT: &'static str = "Accept";

/// The kind of reply that the operations with a JSON result ask for.
pub const JSON: &'static str = "application/json";

/// What is to be sent for one operation: a URL-encoded form, posted to an
/// address.
#[derive(Debug, Clone)]
pub struct Submission {
    /// Address that the form is posted to.
    pub url: String,
    /// Pairs of name and value of the headers to set.
    pub headers: Vec<(String, String)>,
    /// Pairs of key and value of the form, in the order of submission.
    pub form: Vec<(String, String)>,
}

/// What a `Submission` holds.
pub struct SubmissionView {
    pub url: Seq<char>,
    pub headers: Form,
    pub form: Form,
}

impl View for Submission {
    type V = SubmissionView;

    open spec fn view(&self) -> SubmissionView {
        SubmissionView {
            url: self.url@,
            headers: self.headers.deep_view(),
            form: self.form.deep_view(),
        }
    }
}

/// What the status of a reply says of the request.
pub enum StatusClass {
    /// The request was carried out; the body holds the result.
    Success,
    /// The client has asked too often; the body does not matter.
    RateLimited,
    /// The request was refused; the body says why.
    Rejected,
}

/// What to do with a reply once its status is known.
#[derive(Debug)]
pub enum StatusVerdict {
    /// The request was carried out: the body holds the result.
    Success,
    /// The request failed with this error, whatever the body holds.
    Failure(UrlShortenerError),
    /// The request was refused: the body, read as text, says why (see
    /// `rejection`).
    Rejected,
}

/// The class of a status: 200 to 299 is success, 429 is the rate limit, and
/// every other status is a rejection.
pub open spec fn status_class(status: u16) -> StatusClass {
    if 200 <= status < 300 {
        StatusClass::Success
    } else if status == TOO_MANY_REQUESTS {
        StatusClass::RateLimited
    } else {
        StatusClass::Rejected
    }
}

/// The error of a rejected request, from the error label of its body (where
/// the body has one) and the body's text.
pub open spec fn rejection_of(label: Option<Seq<char>>, text: Seq<char>) -> UrlShortenerErrorView {
    match label {
        Some(label) => UrlShortenerErrorView::Api(ApiErrorView::from_label(label)),
        None => UrlShortenerErrorView::Other(text),
    }
}

/// The error that a reply stands for, if any, from its status, the error
/// label of its body and the body's text.
pub open spec fn reply_fault(status: u16, label: Option<Seq<char>>, text: Seq<char>) -> Option<
    UrlShortenerErrorView,
> {
    match status_class(status) {
        StatusClass::Success => None,
        StatusClass::RateLimited => Some(
            UrlShortenerErrorView::Api(ApiErrorView::RateLimitExceeded),
        ),
        StatusClass::Rejected => Some(rejection_of(label, text)),
    }
}

/// The fault of a password, if it is set and not valid.
pub open spec fn password_fault(password: Option<Seq<char>>) -> Option<ValidationErrorView> {
    match password {
        Some(pw) => if valid_password(pw) {
            None
        } else {
            Some(ValidationErrorView::InvalidPasswordFormat(pw))
        },
        None => None,
    }
}

/// The fault of a URL, if it is not valid.
pub open spec fn url_fault(url: Seq<char>, exclusion: Seq<char>) -> Option<ValidationErrorView> {
    if valid_url(url, exclusion) {
        None
    } else {
        Some(ValidationErrorView::InvalidUrlFormat(url))
    }
}

/// The fault of a short code, if it is not valid.
pub open spec fn code_fault(code: Seq<char>) -> Option<ValidationErrorView> {
    if valid_alias(code) {
        None
    } else {
        Some(ValidationErrorView::InvalidAliasFormat(code))
    }
}

/// The fault of an alias, if it is set and not valid.
pub open spec fn alias_fault(alias: Option<Seq<char>>) -> Option<ValidationErrorView> {
    match alias {
        Some(alias) => code_fault(alias),
        None => None,
    }
}

/// The fault of a click limit, if it is set and not valid.
pub open spec fn max_clicks_fault(max: Option<u32>) -> Option<ValidationErrorView> {
    match max {
        Some(n) => if valid_max_clicks(n) {
            None
        } else {
            Some(ValidationErrorView::InvalidMaxClicks(n))
        },
        None => None,
    }
}

/// The first of two faults.
pub open spec fn or_else(
    first: Option<ValidationErrorView>,
    second: Option<ValidationErrorView>,
) -> Option<ValidationErrorView> {
    match first {
        Some(fault) => Some(fault),
        None => second,
    }
}

/// The first fault of a shorten request: password, URL, alias and click
/// limit are looked at in this order.
pub open spec fn shorten_fault(req: ShortenRequestView, exclusion: Seq<char>) -> Option<
    ValidationErrorView,
> {
    or_else(
        password_fault(req.password),
        or_else(
            url_fault(req.url, exclusion),
            or_else(alias_fault(req.alias), max_clicks_fault(req.max_clicks)),
        ),
    )
}

/// The first fault of an emoji request: password, URL and click limit are
/// looked at in this order. The emoji sequence is for the service to judge.
pub open spec fn emoji_fault(req: EmojiRequestView, exclusion: Seq<char>) -> Option<
    ValidationErrorView,
> {
    or_else(
        password_fault(req.password),
        or_else(url_fault(req.url, exclusion), max_clicks_fault(req.max_clicks)),
    )
}

/// The first fault of a stats request: password, then short code.
pub open spec fn stats_fault(req: StatsRequestView) -> Option<ValidationErrorView> {
    or_else(password_fault(req.password), code_fault(req.short_code))
}

/// The first fault of an export request: password, then short code.
pub open spec fn export_fault(req: ExportRequestView) -> Option<ValidationErrorView> {
    or_else(password_fault(req.password), code_fault(req.short_code))
}

/// The headers of an operation whose result is a JSON document.
pub open spec fn json_headers() -> Form {
    seq![(ACCEPT@, JSON@)]
}

/// What is submitted for a shorten request.
pub open spec fn shorten_submission(base: Seq<char>, req: ShortenRequestView) -> SubmissionView {
    SubmissionView { url: base + "/"@, headers: json_headers(), form: req.form() }
}

/// What is submitted for an emoji request.
pub open spec fn emoji_submission(base: Seq<char>, req: EmojiRequestView) -> SubmissionView {
    SubmissionView { url: base + "/emoji"@, headers: json_headers(), form: req.form() }
}

/// What is submitted for a stats request.
pub open spec fn stats_submission(base: Seq<char>, req: StatsRequestView) -> SubmissionView {
    SubmissionView {
        url: base + "/stats/"@ + req.short_code,
        headers: json_headers(),
        form: req.form(),
    }
}

/// What is submitted for an export request. The result is a file, so no
/// kind of reply is asked for.
pub open spec fn export_submission(base: Seq<char>, req: ExportRequestView) -> SubmissionView {
    SubmissionView {
        url: base + "/export/"@ + req.short_code + "/"@ + req.export_format.name(),
        headers: seq![],
        form: req.form(),
    }
}

/// What preparing an operation gives: the fault as a validation error where
/// there is one, else the submission.
pub open spec fn prepared(
    fault: Option<ValidationErrorView>,
    submission: SubmissionView,
    result: Result<Submission, UrlShortenerError>,
) -> bool {
    match fault {
        Some(fault) => result is Err && result->Err_0@ == UrlShortenerErrorView::Validation(fault),
        None => result is Ok && result->Ok_0@ == submission,
    }
}

/// What checking a request gives: the fault where there is one.
pub open spec fn checked(
    fault: Option<ValidationErrorView>,
    result: Result<(), ValidationError>,
) -> bool {
    match fault {
        Some(fault) => result is Err && result->Err_0@ == fault,
        None => result is Ok,
    }
}

/// Checks a password, where one is set.
fn check_password(password: &Option<String>) -> (result: Result<(), ValidationError>)
    ensures
        checked(password_fault(password.deep_view()), result),
{
    match password {
        Some(pw) => {
            if is_valid_password(pw.as_str()) {
                Ok(())
            } else {
                Err(ValidationError::InvalidPasswordFormat(pw.clone()))
            }
        },
        None => Ok(()),
    }
}

/// Checks a URL against the address it must not hold.
fn check_url(url: &String, exclusion: &str) -> (result: Result<(), ValidationError>)
    ensures
        checked(url_fault(url@, exclusion@), result),
{
    if is_valid_url(url.as_str(), exclusion) {
        Ok(())
    } else {
        Err(ValidationError::InvalidUrlFormat(url.clone()))
    }
}

/// Checks a short code.
fn check_code(code: &String) -> (result: Result<(), ValidationError>)
    ensures
        checked(code_fault(code@), result),
{
    if is_valid_alias(code.as_str()) {
        Ok(())
    } else {
        Err(ValidationError::InvalidAliasFormat(code.clone()))
    }
}

/// Checks an alias, where one is set.
fn check_alias(alias: &Option<String>) -> (result: Result<(), ValidationError>)
    ensures
        checked(alias_fault(alias.deep_view()), result),
{
    match alias {
        Some(alias) => check_code(alias),
        None => Ok(()),
    }
}

/// Checks a click limit, where one is set.
fn check_max_clicks(max: Option<u32>) -> (result: Result<(), ValidationError>)
    ensures
        checked(max_clicks_fault(max), result),
{
    match max {
        Some(n) => {
            if is_valid_max_clicks(n) {
                Ok(())
            } else {
                Err(ValidationError::InvalidMaxClicks(n))
            }
        },
        None => Ok(()),
    }
}

/// The headers of an operation whose result is a JSON document.
fn accept_json() -> (headers: Vec<(String, String)>)
    ensures
        headers.deep_view() == json_headers(),
{
    let mut headers: Vec<(String, String)> = Vec::new();
    headers.push((String::from_str(ACCEPT), String::from_str(JSON)));
    assert(headers.deep_view() =~= json_headers());
    headers
}

/// No headers.
fn no_headers() -> (headers: Vec<(String, String)>)
    ensures
        headers.deep_view() == Seq::<(Seq<char>, Seq<char>)>::empty(),
{
    let headers: Vec<(String, String)> = Vec::new();
    assert(headers.deep_view() =~= Seq::<(Seq<char>, Seq<char>)>::empty());
    headers
}

/// What to do with a reply once its status is known: a status from 200 to
/// 299 is success, 429 is the rate-limit error, and for every other status
/// the body says why the request was refused.
pub fn status_verdict(status: u16) -> (verdict: StatusVerdict)
    ensures
        match status_class(status) {
            StatusClass::Success => verdict is Success,
            StatusClass::RateLimited => verdict is Failure && verdict->Failure_0@
                == UrlShortenerErrorView::Api(ApiErrorView::RateLimitExceeded),
            StatusClass::Rejected => verdict is Rejected,
        },
{
    if 200 <= status && status < 300 {
        StatusVerdict::Success
    } else if status == TOO_MANY_REQUESTS {
        StatusVerdict::Failure(UrlShortenerError::Api(ApiError::RateLimitExceeded))
    } else {
        StatusVerdict::Rejected
    }
}

/// The error of a rejected request, once its body has been searched for an
/// error label: the service's error where a label was found, else the body's
/// text as it came.
pub fn rejection_from_label(label: Option<String>, text: &str) -> (err: UrlShortenerError)
    ensures
        err@ == rejection_of(label.deep_view(), text@),
{
    match label {
        Some(label) => UrlShortenerError::Api(ApiError::from_label(label.as_str())),
        None => UrlShortenerError::Other(String::from_str(text)),
    }
}

/// The error of a rejected request with the body `text`.
pub fn rejection(text: &str) -> (err: UrlShortenerError)
    ensures
        err@ == rejection_of(json_string_member(text@, ERROR_KEY@), text@),
{
    let label = json_string_field(text, ERROR_KEY);
    rejection_from_label(label, text)
}

/// The error that a reply with this status and body stands for; `None` for a
/// reply that reports success.
pub fn reply_error(status: u16, text: &str) -> (err: Option<UrlShortenerError>)
    ensures
        match reply_fault(status, json_string_member(text@, ERROR_KEY@), text@) {
            Some(fault) => err is Some && err->0@ == fault,
            None => err is None,
        },
{
    match status_verdict(status) {
        StatusVerdict::Success => None,
        StatusVerdict::Failure(err) => Some(err),
        StatusVerdict::Rejected => Some(rejection(text)),
    }
}

/// A client for the URL shortener API: the address of the service, and
/// whether that address was set by the caller.
#[derive(Debug, Clone)]
pub struct UrlShortenerClient {
    base_url: String,
    custom_base: bool,
}

impl UrlShortenerClient {
    /// The address of the service.
    pub closed spec fn base(&self) -> Seq<char> {
        self.base_url@
    }

    /// Whether the address was set by the caller.
    pub closed spec fn is_custom(&self) -> bool {
        self.custom_base
    }

    /// What a URL must not hold to be shortened here: the address of the
    /// service where the caller has set one, else the host name of the public
    /// service.
    pub open spec fn excluded(&self) -> Seq<char> {
        if self.is_custom() {
            self.base()
        } else {
            DEFAULT_HOST@
        }
    }

    /// Create a new client
    pub fn new() -> (client: Self)
        ensures
            client.base() == DEFAULT_BASE_URL@,
            !client.is_custom(),
    {
        UrlShortenerClient { base_url: String::from_str(DEFAULT_BASE_URL), custom_base: false }
    }

    /// Create a new client with a custom base URL
    pub fn new_with_base_url(url: &str) -> (client: Self)
        ensures
            client.base() == url@,
            client.is_custom(),
    {
        UrlShortenerClient { base_url: String::from_str(url), custom_base: true }
    }

    /// Set a custom base URL for the client.
    pub fn set_base_url(&mut self, url: &str)
        ensures
            final(self).base() == url@,
            final(self).is_custom(),
    {
        self.base_url = String::from_str(url);
        self.custom_base = true;
    }

    /// The address of the service.
    pub fn base_url(&self) -> (url: &str)
        ensures
            url@ == self.base(),
    {
        self.base_url.as_str()
    }

    /// What a URL must not hold to be shortened here.
    pub fn exclusion(&self) -> (text: &str)
        ensures
            text@ == self.excluded(),
    {
        if self.custom_base {
            self.base_url.as_str()
        } else {
            DEFAULT_HOST
        }
    }

    /// The address of an endpoint: the base address, then `path`.
    fn endpoint(&self, path: &str) -> (url: String)
        ensures
            url@ == self.base() + path@,
    {
        self.base_url.clone().concat(path)
    }

    /// Looks for the first fault of a shorten request.
    pub fn check_shorten(&self, req: &ShortenRequest) -> (result: Result<(), ValidationError>)
        ensures
            checked(shorten_fault(req@, self.excluded()), result),
    {
        check_password(&req.password)?;
        check_url(&req.url, self.exclusion())?;
        check_alias(&req.alias)?;
        check_max_clicks(req.max_clicks)
    }

    /// Looks for the first fault of an emoji request.
    pub fn check_emoji(&self, req: &EmojiRequest) -> (result: Result<(), ValidationError>)
        ensures
            checked(emoji_fault(req@, self.excluded()), result),
    {
        check_password(&req.password)?;
        check_url(&req.url, self.exclusion())?;
        check_max_clicks(req.max_clicks)
    }

    /// Looks for the first fault of a stats request.
    pub fn check_stats(&self, req: &StatsRequest) -> (result: Result<(), ValidationError>)
        ensures
            checked(stats_fault(req@), result),
    {
        check_password(&req.password)?;
        check_code(&req.short_code)
    }

    /// Looks for the first fault of an export request.
    pub fn check_export(&self, req: &ExportRequest) -> (result: Result<(), ValidationError>)
        ensures
            checked(export_fault(req@), result),
    {
        check_password(&req.password)?;
        check_code(&req.short_code)
    }

    /// Validates a shorten request and says what to submit for it: its form,
    /// posted to `{base}/`.
    pub fn prepare_shorten(&self, req: &ShortenRequest) -> (result: Result<
        Submission,
        UrlShortenerError,
    >)
        ensures
            prepared(
                shorten_fault(req@, self.excluded()),
                shorten_submission(self.base(), req@),
                result,
            ),
    {
        match self.check_shorten(req) {
            Ok(()) => Ok(
                Submission {
                    url: self.endpoint("/"),
                    headers: accept_json(),
                    form: req.form_fields(),
                },
            ),
            Err(fault) => Err(UrlShortenerError::Validation(fault)),
        }
    }

    /// Validates an emoji request and says what to submit for it: its form,
    /// posted to `{base}/emoji`.
    pub fn prepare_emoji(&self, req: &EmojiRequest) -> (result: Result<
        Submission,
        UrlShortenerError,
    >)
        ensures
            prepared(
                emoji_fault(req@, self.excluded()),
                emoji_submission(self.base(), req@),
                result,
            ),
    {
        match self.check_emoji(req) {
            Ok(()) => Ok(
                Submission {
                    url: self.endpoint("/emoji"),
                    headers: accept_json(),
                    form: req.form_fields(),
                },
            ),
            Err(fault) => Err(UrlShortenerError::Validation(fault)),
        }
    }

    /// Validates a stats request and says what to submit for it: its form,
    /// posted to `{base}/stats/{short_code}`.
    pub fn prepare_stats(&self, req: &StatsRequest) -> (result: Result<
        Submission,
        UrlShortenerError,
    >)
        ensures
            prepared(stats_fault(req@), stats_submission(self.base(), req@), result),
    {
        match self.check_stats(req) {
            Ok(()) => {
                let url = self.endpoint("/stats/").concat(req.short_code.as_str());
                Ok(Submission { url, headers: accept_json(), form: req.form_fields() })
            },
            Err(fault) => Err(UrlShortenerError::Validation(fault)),
        }
    }

    /// Validates an export request and says what to submit for it: its form,
    /// posted to `{base}/export/{short_code}/{format}`.
    pub fn prepare_export(&self, req: &ExportRequest) -> (result: Result<
        Submission,
        UrlShortenerError,
    >)
        ensures
            prepared(export_fault(req@), export_submission(self.base(), req@), result),
    {
        match self.check_export(req) {
            Ok(()) => {
                let url = self.endpoint("/export/").concat(req.short_code.as_str()).concat(
                    "/",
                ).concat(req.export_format.as_str());
                Ok(Submission { url, headers: no_headers(), form: req.form_fields() })
            },
            Err(fault) => Err(UrlShortenerError::Validation(fault)),
        }
    }
}

impl Default for UrlShortenerClient {
    fn default() -> (client: Self)
        ensures
            client.base() == DEFAULT_BASE_URL@,
            !client.is_custom(),
    {
        UrlShortenerClient::new()
    }
}

/// A reply with status 429 stands for the rate-limit error, whatever its
/// body holds.
pub proof fn lemma_rate_limit_whatever_body(label: Option<Seq<char>>, text: Seq<char>)
    ensures
        reply_fault(TOO_MANY_REQUESTS, label, text) == Some(
            UrlShortenerErrorView::Api(ApiErrorView::RateLimitExceeded),
        ),
{
}

/// A reply stands for an error exactly when its status is outside 200 to
/// 299: an exchange ends in a result or in an error, never in both.
pub proof fn lemma_reply_error_iff_not_success(
    status: u16,
    label: Option<Seq<char>>,
    text: Seq<char>,
)
    ensures
        reply_fault(status, label, text) is None <==> 200 <= status < 300,
{
}

/// A request with a password that is not valid is refused for its password,
/// whatever its other fields hold.
pub proof fn lemma_invalid_password_comes_first(
    shorten: ShortenRequestView,
    emoji: EmojiRequestView,
    stats: StatsRequestView,
    export: ExportRequestView,
    exclusion: Seq<char>,
    pw: Seq<char>,
)
    requires
        !valid_password(pw),
        shorten.password == Some(pw),
        emoji.password == Some(pw),
        stats.password == Some(pw),
        export.password == Some(pw),
    ensures
        shorten_fault(shorten, exclusion) == Some(ValidationErrorView::InvalidPasswordFormat(pw)),
        emoji_fault(emoji, exclusion) == Some(ValidationErrorView::InvalidPasswordFormat(pw)),
        stats_fault(stats) == Some(ValidationErrorView::InvalidPasswordFormat(pw)),
        export_fault(export) == Some(ValidationErrorView::InvalidPasswordFormat(pw)),
{
}

} // verus!
