//! Requests and responses for the URL shortener API.
//!
//! A request is built from its mandatory fields and then extended field by
//! field. Its view holds the fields as plain values; `form` says which pairs
//! of key and value are submitted for it, and `form_fields` computes them.

use crate::text::{decimal, decimal_string};
use std::collections::HashMap;
use vstd::prelude::*;
use vstd::string::StringExecFns;

verus! {

/// The pairs of key and value of a form.
pub type Form = Seq<(Seq<char>, Seq<char>)>;

/// The form entry of an optional field: one pair where the field is set,
/// none where it is not.
pub open spec fn optional_entry(key: Seq<char>, value: Option<Seq<char>>) -> Form {
    match value {
        Some(text) => seq![(key, text)],
        None => seq![],
    }
}

/// How a click limit is written in a form.
pub open spec fn max_clicks_text(max: Option<u32>) -> Option<Seq<char>> {
    match max {
        Some(n) => Some(decimal(n as nat)),
        None => None,
    }
}

/// How a flag is written in a form.
pub open spec fn flag_text(flag: Option<bool>) -> Option<Seq<char>> {
    match flag {
        Some(true) => Some("true"@),
        Some(false) => Some("false"@),
        None => None,
    }
}

/// Appends one pair to a form.
fn push_entry(form: &mut Vec<(String, String)>, key: &str, value: &str)
    ensures
        final(form).deep_view() == old(form).deep_view().push((key@, value@)),
{
    form.push((String::from_str(key), String::from_str(value)));
    assert(form.deep_view() =~= old(form).deep_view().push((key@, value@)));
}

/// Appends the pair of an optional text field, where the field is set.
fn push_optional(form: &mut Vec<(String, String)>, key: &str, value: &Option<String>)
    ensures
        final(form).deep_view() == old(form).deep_view() + optional_entry(
            key@,
            value.deep_view(),
        ),
{
    match value {
        Some(text) => {
            push_entry(form, key, text.as_str());
        },
        None => {},
    }
    assert(form.deep_view() =~= old(form).deep_view() + optional_entry(key@, value.deep_view()));
}

/// Appends the pair of a click limit, where one is set.
fn push_max_clicks(form: &mut Vec<(String, String)>, max: Option<u32>)
    ensures
        final(form).deep_view() == old(form).deep_view() + optional_entry(
            "max-clicks"@,
            max_clicks_text(max),
        ),
{
    match max {
        Some(n) => {
            let text = decimal_string(n);
            push_entry(form, "max-clicks", text.as_str());
        },
        None => {},
    }
    assert(form.deep_view() =~= old(form).deep_view() + optional_entry(
        "max-clicks"@,
        max_clicks_text(max),
    ));
}

/// Appends the pair of the bot-blocking flag, where it is set.
fn push_block_bots(form: &mut Vec<(String, String)>, flag: Option<bool>)
    ensures
        final(form).deep_view() == old(form).deep_view() + optional_entry(
            "block-bots"@,
            flag_text(flag),
        ),
{
    match flag {
        Some(true) => {
            push_entry(form, "block-bots", "true");
        },
        Some(false) => {
            push_entry(form, "block-bots", "false");
        },
        None => {},
    }
    assert(form.deep_view() =~= old(form).deep_view() + optional_entry(
        "block-bots"@,
        flag_text(flag),
    ));
}

/// A field that is not set has no entry in the form: an optional field
/// contributes one entry where it is set and none where it is not, so it is
/// never sent with an empty value in place of an absent one.
pub proof fn lemma_optional_entry(key: Seq<char>, value: Option<Seq<char>>)
    ensures
        value is None ==> optional_entry(key, value).len() == 0,
        value is Some ==> optional_entry(key, value) == seq![(key, value->0)],
{
}

/// The form of a request with nothing but its mandatory fields: the URL for
/// a shorten or emoji request, nothing for a stats or export request.
pub proof fn lemma_bare_forms(url: Seq<char>, stats: StatsRequestView, export: ExportRequestView)
    requires
        stats.password is None,
        export.password is None,
    ensures
        ShortenRequestView::new(url).form() == seq![("url"@, url)],
        EmojiRequestView::new(url).form() == seq![("url"@, url)],
        stats.form() == Seq::<(Seq<char>, Seq<char>)>::empty(),
        export.form() == Seq::<(Seq<char>, Seq<char>)>::empty(),
{
    assert(ShortenRequestView::new(url).form() =~= seq![("url"@, url)]);
    assert(EmojiRequestView::new(url).form() =~= seq![("url"@, url)]);
    assert(stats.form() =~= Seq::<(Seq<char>, Seq<char>)>::empty());
    assert(export.form() =~= Seq::<(Seq<char>, Seq<char>)>::empty());
}

/// Response for URL-shortening endpoints (`/` and `/emoji`).
#[derive(Debug, Clone)]
pub struct ShortenResponse {
    /// The resulting shortened URL (full URL).
    pub short_url: String,
    /// The domain name used for the short URL - currently always "spoo.me".
    pub domain: String,
    /// The URL that was shortened.
    pub original_url: String,
}

/// Request payload for `POST /` (shorten URL).
#[derive(Debug, Clone)]
pub struct ShortenRequest {
    pub url: String,
    pub alias: Option<String>,
    pub password: Option<String>,
    pub max_clicks: Option<u32>,
    pub block_bots: Option<bool>,
}

/// What a `ShortenRequest` holds.
pub struct ShortenRequestView {
    pub url: Seq<char>,
    pub alias: Option<Seq<char>>,
    pub password: Option<Seq<char>>,
    pub max_clicks: Option<u32>,
    pub block_bots: Option<bool>,
}

impl View for ShortenRequest {
    type V = ShortenRequestView;

    open spec fn view(&self) -> ShortenRequestView {
        ShortenRequestView {
            url: self.url@,
            alias: self.alias.deep_view(),
            password: self.password.deep_view(),
            max_clicks: self.max_clicks,
            block_bots: self.block_bots,
        }
    }
}

impl ShortenRequestView {
    /// The request with the mandatory `url` and nothing else.
    pub open spec fn new(url: Seq<char>) -> ShortenRequestView {
        ShortenRequestView { url, alias: None, password: None, max_clicks: None, block_bots: None }
    }

    /// The form that is submitted: the URL, then each optional field that is
    /// set, under its key. A field that is not set has no entry.
    pub open spec fn form(self) -> Form {
        seq![("url"@, self.url)] + optional_entry("alias"@, self.alias) + optional_entry(
            "password"@,
            self.password,
        ) + optional_entry("max-clicks"@, max_clicks_text(self.max_clicks)) + optional_entry(
            "block-bots"@,
            flag_text(self.block_bots),
        )
    }
}

impl Default for ShortenRequest {
    fn default() -> (req: Self)
        ensures
            req@ == ShortenRequestView::new(Seq::empty()),
    {
        ShortenRequest {
            url: String::new(),
            alias: None,
            password: None,
            max_clicks: None,
            block_bots: None,
        }
    }
}

impl ShortenRequest {
    /// Creates a new ShortenRequest with the mandatory `url`.
    pub fn new(url: &str) -> (req: Self)
        ensures
            req@ == ShortenRequestView::new(url@),
    {
        ShortenRequest {
            url: String::from_str(url),
            alias: None,
            password: None,
            max_clicks: None,
            block_bots: None,
        }
    }

    /// Optional custom alias (must follow API rules)
    pub fn alias(self, alias: &str) -> (req: Self)
        ensures
            req@ == (ShortenRequestView { alias: Some(alias@), ..self@ }),
    {
        let mut req = self;
        req.alias = Some(String::from_str(alias));
        req
    }

    /// Optional password (must follow API rules).
    pub fn password(self, password: &str) -> (req: Self)
        ensures
            req@ == (ShortenRequestView { password: Some(password@), ..self@ }),
    {
        let mut req = self;
        req.password = Some(String::from_str(password));
        req
    }

    /// Optional max-clicks (must be positive).
    pub fn max_clicks(self, max: u32) -> (req: Self)
        ensures
            req@ == (ShortenRequestView { max_clicks: Some(max), ..self@ }),
    {
        let mut req = self;
        req.max_clicks = Some(max);
        req
    }

    /// Optional block bots flag.
    pub fn block_bots(self, flag: bool) -> (req: Self)
        ensures
            req@ == (ShortenRequestView { block_bots: Some(flag), ..self@ }),
    {
        let mut req = self;
        req.block_bots = Some(flag);
        req
    }

    /// The pairs of key and value that are submitted for this request.
    pub fn form_fields(&self) -> (form: Vec<(String, String)>)
        ensures
            form.deep_view() == self@.form(),
    {
        let mut form: Vec<(String, String)> = Vec::new();
        assert(form.deep_view() =~= Seq::empty());
        push_entry(&mut form, "url", self.url.as_str());
        push_optional(&mut form, "alias", &self.alias);
        push_optional(&mut form, "password", &self.password);
        push_max_clicks(&mut form, self.max_clicks);
        push_block_bots(&mut form, self.block_bots);
        assert(form.deep_view() =~= self@.form());
        form
    }
}

/// Request payload for `POST /emoji` (uses emojis as slug).
#[derive(Debug, Clone)]
pub struct EmojiRequest {
    pub url: String,
    pub emojies: Option<String>,
    pub password: Option<String>,
    pub max_clicks: Option<u32>,
    pub block_bots: Option<bool>,
}

/// What an `EmojiRequest` holds.
pub struct EmojiRequestView {
    pub url: Seq<char>,
    pub emojies: Option<Seq<char>>,
    pub password: Option<Seq<char>>,
    pub max_clicks: Option<u32>,
    pub block_bots: Option<bool>,
}

impl View for EmojiRequest {
    type V = EmojiRequestView;

    open spec fn view(&self) -> EmojiRequestView {
        EmojiRequestView {
            url: self.url@,
            emojies: self.emojies.deep_view(),
            password: self.password.deep_view(),
            max_clicks: self.max_clicks,
            block_bots: self.block_bots,
        }
    }
}

impl EmojiRequestView {
    /// The request with the mandatory `url` and nothing else.
    pub open spec fn new(url: Seq<char>) -> EmojiRequestView {
        EmojiRequestView { url, emojies: None, password: None, max_clicks: None, block_bots: None }
    }

    /// The form that is submitted: the URL, then each optional field that is
    /// set, under its key. A field that is not set has no entry.
    pub open spec fn form(self) -> Form {
        seq![("url"@, self.url)] + optional_entry("emojies"@, self.emojies) + optional_entry(
            "password"@,
            self.password,
        ) + optional_entry("max-clicks"@, max_clicks_text(self.max_clicks)) + optional_entry(
            "block-bots"@,
            flag_text(self.block_bots),
        )
    }
}

impl Default for EmojiRequest {
    fn default() -> (req: Self)
        ensures
            req@ == EmojiRequestView::new(Seq::empty()),
    {
        EmojiRequest {
            url: String::new(),
            emojies: None,
            password: None,
            max_clicks: None,
            block_bots: None,
        }
    }
}

impl EmojiRequest {
    /// Creates a new EmojiRequest with the mandatory `url`.
    pub fn new(url: &str) -> (req: Self)
        ensures
            req@ == EmojiRequestView::new(url@),
    {
        EmojiRequest {
            url: String::from_str(url),
            emojies: None,
            password: None,
            max_clicks: None,
            block_bots: None,
        }
    }

    /// Optional emoji sequence (must follow API rules).
    pub fn emojies(self, seq: &str) -> (req: Self)
        ensures
            req@ == (EmojiRequestView { emojies: Some(seq@), ..self@ }),
    {
        let mut req = self;
        req.emojies = Some(String::from_str(seq));
        req
    }

    /// Optional password (must follow API rules).
    pub fn password(self, password: &str) -> (req: Self)
        ensures
            req@ == (EmojiRequestView { password: Some(password@), ..self@ }),
    {
        let mut req = self;
        req.password = Some(String::from_str(password));
        req
    }

    /// Optional max-clicks (must be positive).
    pub fn max_clicks(self, max: u32) -> (req: Self)
        ensures
            req@ == (EmojiRequestView { max_clicks: Some(max), ..self@ }),
    {
        let mut req = self;
        req.max_clicks = Some(max);
        req
    }

    /// Optional block bots flag.
    pub fn block_bots(self, flag: bool) -> (req: Self)
        ensures
            req@ == (EmojiRequestView { block_bots: Some(flag), ..self@ }),
    {
        let mut req = self;
        req.block_bots = Some(flag);
        req
    }

    /// The pairs of key and value that are submitted for this request.
    pub fn form_fields(&self) -> (form: Vec<(String, String)>)
        ensures
            form.deep_view() == self@.form(),
    {
        let mut form: Vec<(String, String)> = Vec::new();
        assert(form.deep_view() =~= Seq::empty());
        push_entry(&mut form, "url", self.url.as_str());
        push_optional(&mut form, "emojies", &self.emojies);
        push_optional(&mut form, "password", &self.password);
        push_max_clicks(&mut form, self.max_clicks);
        push_block_bots(&mut form, self.block_bots);
        assert(form.deep_view() =~= self@.form());
        form
    }
}

/// Response struct for `POST /emoji`, containing the shortened URL.
#[derive(Debug, Clone)]
pub struct EmojiResponse {
    /// The resulting shortened URL (full URL).
    pub short_url: String,
    /// The domain name used for the short URL - currently always "spoo.me".
    pub domain: String,
    /// The URL that was shortened.
    pub original_url: String,
}

/// Request payload for `POST /stats/{shortCode}`.
#[derive(Debug, Clone)]
pub struct StatsRequest {
    pub short_code: String,
    pub password: Option<String>,
}

/// What a `StatsRequest` holds.
pub struct StatsRequestView {
    pub short_code: Seq<char>,
    pub password: Option<Seq<char>>,
}

impl View for StatsRequest {
    type V = StatsRequestView;

    open spec fn view(&self) -> StatsRequestView {
        StatsRequestView { short_code: self.short_code@, password: self.password.deep_view() }
    }
}

impl StatsRequestView {
    /// The form that is submitted: the password, where one is set. The short
    /// code is part of the address, not of the form.
    pub open spec fn form(self) -> Form {
        optional_entry("password"@, self.password)
    }
}

impl Default for StatsRequest {
    fn default() -> (req: Self)
        ensures
            req@ == (StatsRequestView { short_code: Seq::empty(), password: None }),
    {
        StatsRequest { short_code: String::new(), password: None }
    }
}

impl StatsRequest {
    /// Create a StatsRequest (optionally with password).
    pub fn new(short_code: &str) -> (req: Self)
        ensures
            req@ == (StatsRequestView { short_code: short_code@, password: None }),
    {
        StatsRequest { short_code: String::from_str(short_code), password: None }
    }

    /// Optional password for accessing stats (if set on the short URL).
    pub fn password(self, password: &str) -> (req: Self)
        ensures
            req@ == (StatsRequestView { password: Some(password@), ..self@ }),
    {
        let mut req = self;
        req.password = Some(String::from_str(password));
        req
    }

    /// The pairs of key and value that are submitted for this request.
    pub fn form_fields(&self) -> (form: Vec<(String, String)>)
        ensures
            form.deep_view() == self@.form(),
    {
        let mut form: Vec<(String, String)> = Vec::new();
        assert(form.deep_view() =~= Seq::empty());
        push_optional(&mut form, "password", &self.password);
        form
    }
}

/// Response struct for `POST /stats/{shortCode}`, containing URL statistics.
///
/// A field that the service left out is `None`, which is not the same as a
/// count of zero.
#[derive(Debug, Clone)]
pub struct StatsResponse {
    /// The code of the short URL.
    pub short_code: String,
    /// The original long URL.
    pub url: String,
    /// Total clicks since creation.
    pub total_clicks: u32,
    /// Total unique clicks.
    pub total_unique_clicks: u32,
    /// Creation date (string) of the short link, if available.
    pub creation_date: Option<String>,
    /// Whether the link has expired.
    pub expired: Option<bool>,
    /// Last click timestamp (if any).
    pub last_click: Option<String>,
    /// Last browser used.
    pub last_click_browser: Option<String>,
    /// Last OS used.
    pub last_click_os: Option<String>,
    /// Max clicks allowed (if set).
    pub max_clicks: Option<u32>,
    /// The password set on the short URL (if any).
    pub password: Option<String>,
    /// Whether bots were blocked.
    pub block_bots: Option<bool>,
    /// Click data per bot type.
    pub bots: Option<HashMap<String, u32>>,
    /// Click data per browser.
    pub browser: Option<HashMap<String, u32>>,
    /// Click data per country.
    pub country: Option<HashMap<String, u32>>,
    /// Clicks per day.
    pub counter: Option<HashMap<String, u32>>,
    /// Unique clicks per browser.
    pub unique_browser: Option<HashMap<String, u32>>,
    /// Unique clicks per country.
    pub unique_country: Option<HashMap<String, u32>>,
    /// Unique clicks per day.
    pub unique_counter: Option<HashMap<String, u32>>,
    /// Unique clicks per OS name.
    pub unique_os_name: Option<HashMap<String, u32>>,
    /// Unique clicks per referrer.
    pub unique_referrer: Option<HashMap<String, u32>>,
}

/// Enum representing the available export formats.
#[derive(Debug, Clone, Copy)]
pub enum ExportFormat {
    /// Export as JSON.
    JSON,
    /// Export as CSV, zipped together.
    CSV,
    /// Export as XLSX (Excel format).
    XLSX,
    /// Export as XML.
    XML,
}

impl ExportFormat {
    /// The name of the format in the address of an export.
    pub open spec fn name(self) -> Seq<char> {
        match self {
            ExportFormat::JSON => "json"@,
            ExportFormat::CSV => "csv"@,
            ExportFormat::XLSX => "xlsx"@,
            ExportFormat::XML => "xml"@,
        }
    }

    /// The name of the format in the address of an export, in lower case.
    pub fn as_str(&self) -> (name: &'static str)
        ensures
            name@ == self.name(),
    {
        match self {
            ExportFormat::JSON => "json",
            ExportFormat::CSV => "csv",
            ExportFormat::XLSX => "xlsx",
            ExportFormat::XML => "xml",
        }
    }
}

/// Request payload for `POST /export/{shortCode}/{exportFormat}`.
#[derive(Debug, Clone)]
pub struct ExportRequest {
    /// The short code of the URL to export.
    pub short_code: String,
    pub export_format: ExportFormat,
    pub password: Option<String>,
}

/// What an `ExportRequest` holds.
pub struct ExportRequestView {
    pub short_code: Seq<char>,
    pub export_format: ExportFormat,
    pub password: Option<Seq<char>>,
}

impl View for ExportRequest {
    type V = ExportRequestView;

    open spec fn view(&self) -> ExportRequestView {
        ExportRequestView {
            short_code: self.short_code@,
            export_format: self.export_format,
            password: self.password.deep_view(),
        }
    }
}

impl ExportRequestView {
    /// The form that is submitted: the password, where one is set. Short code
    /// and format are part of the address, not of the form.
    pub open spec fn form(self) -> Form {
        optional_entry("password"@, self.password)
    }
}

impl ExportRequest {
    /// Creates a new ExportRequest with the mandatory `short_code` and `export_format`.
    pub fn new(short_code: &str, export_format: ExportFormat) -> (req: Self)
        ensures
            req@ == (ExportRequestView { short_code: short_code@, export_format, password: None }),
    {
        ExportRequest { short_code: String::from_str(short_code), export_format, password: None }
    }

    /// Optional password for accessing the export (if set on the short URL).
    pub fn password(self, password: &str) -> (req: Self)
        ensures
            req@ == (ExportRequestView { password: Some(password@), ..self@ }),
    {
        let mut req = self;
        req.password = Some(String::from_str(password));
        req
    }

    /// The pairs of key and value that are submitted for this request.
    pub fn form_fields(&self) -> (form: Vec<(String, String)>)
        ensures
            form.deep_view() == self@.form(),
    {
        let mut form: Vec<(String, String)> = Vec::new();
        assert(form.deep_view() =~= Seq::empty());
        push_optional(&mut form, "password", &self.password);
        form
    }
}

/// The exported file, as the service sent it.
#[derive(Debug, Clone)]
pub struct ExportResponse {
    /// The raw data returned
    data: Vec<u8>,
}

impl View for ExportResponse {
    type V = Seq<u8>;

    closed spec fn view(&self) -> Seq<u8> {
        self.data@
    }
}

impl ExportResponse {
    /// Wraps the bytes of an exported file.
    pub fn new(data: Vec<u8>) -> (resp: Self)
        ensures
            resp@ == data@,
    {
        ExportResponse { data }
    }

    /// Returns the raw data of the export.
    pub fn data(&self) -> (bytes: &[u8])
        ensures
            bytes@ == self@,
    {
        self.data.as_slice()
    }
}

} // verus!
