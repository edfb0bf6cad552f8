use spoo_me::requests::{
    EmojiRequest, EmojiResponse, ExportFormat, ExportRequest, ExportResponse, ShortenRequest,
    ShortenResponse, StatsRequest, StatsResponse,
};

fn pairs(form: &[(String, String)]) -> Vec<(&str, &str)> {
    form.iter().map(|(key, value)| (key.as_str(), value.as_str())).collect()
}

#[test]
fn shorten_request_starts_with_the_url_alone() {
    let req = ShortenRequest::new("https://example.com");
    assert_eq!(req.url, "https://example.com");
    assert_eq!(req.alias, None);
    assert_eq!(req.password, None);
    assert_eq!(req.max_clicks, None);
    assert_eq!(req.block_bots, None);
    assert_eq!(pairs(&req.form_fields()), vec![("url", "https://example.com")]);
}

#[test]
fn shorten_request_builder_sets_one_field_at_a_time() {
    let req = ShortenRequest::new("https://example.com").alias("mine");
    assert_eq!(req.alias.as_deref(), Some("mine"));
    assert_eq!(req.password, None);
    let req = req.password("Test@123");
    assert_eq!(req.alias.as_deref(), Some("mine"));
    assert_eq!(req.password.as_deref(), Some("Test@123"));
    let req = req.max_clicks(10);
    assert_eq!(req.max_clicks, Some(10));
    assert_eq!(req.block_bots, None);
    let req = req.block_bots(false);
    assert_eq!(req.block_bots, Some(false));
    assert_eq!(req.url, "https://example.com");
    let req = req.password("Other@456");
    assert_eq!(req.password.as_deref(), Some("Other@456"));
}

#[test]
fn shorten_form_has_hyphenated_keys_in_order() {
    let req = ShortenRequest::new("https://example.com")
        .block_bots(true)
        .max_clicks(10)
        .password("Test@123")
        .alias("mine");
    assert_eq!(
        pairs(&req.form_fields()),
        vec![
            ("url", "https://example.com"),
            ("alias", "mine"),
            ("password", "Test@123"),
            ("max-clicks", "10"),
            ("block-bots", "true"),
        ]
    );
}

#[test]
fn shorten_form_leaves_out_what_is_not_set() {
    let req = ShortenRequest::new("https://example.com").max_clicks(4294967295).block_bots(false);
    assert_eq!(
        pairs(&req.form_fields()),
        vec![
            ("url", "https://example.com"),
            ("max-clicks", "4294967295"),
            ("block-bots", "false"),
        ]
    );
    let req = ShortenRequest::new("https://example.com").password("");
    assert_eq!(pairs(&req.form_fields()), vec![("url", "https://example.com"), ("password", "")]);
}

#[test]
fn emoji_request_builder_and_form() {
    let req = EmojiRequest::new("https://example.com");
    assert_eq!(req.url, "https://example.com");
    assert_eq!(req.emojies, None);
    assert_eq!(pairs(&req.form_fields()), vec![("url", "https://example.com")]);
    let req = req
        .emojies("\u{1f680}\u{1f31f}")
        .password("Test@123")
        .max_clicks(50)
        .block_bots(true);
    assert_eq!(req.emojies.as_deref(), Some("\u{1f680}\u{1f31f}"));
    assert_eq!(
        pairs(&req.form_fields()),
        vec![
            ("url", "https://example.com"),
            ("emojies", "\u{1f680}\u{1f31f}"),
            ("password", "Test@123"),
            ("max-clicks", "50"),
            ("block-bots", "true"),
        ]
    );
}

#[test]
fn stats_request_builder_and_form() {
    let req = StatsRequest::new("ga");
    assert_eq!(req.short_code, "ga");
    assert_eq!(req.password, None);
    assert!(req.form_fields().is_empty());
    let req = req.password("Test@123");
    assert_eq!(req.short_code, "ga");
    assert_eq!(pairs(&req.form_fields()), vec![("password", "Test@123")]);
}

#[test]
fn export_request_builder_and_form() {
    let req = ExportRequest::new("ga", ExportFormat::CSV);
    assert_eq!(req.short_code, "ga");
    assert!(matches!(req.export_format, ExportFormat::CSV));
    assert_eq!(req.password, None);
    assert!(req.form_fields().is_empty());
    let req = req.password("Test@123");
    assert!(matches!(req.export_format, ExportFormat::CSV));
    assert_eq!(pairs(&req.form_fields()), vec![("password", "Test@123")]);
}

#[test]
fn default_requests_are_empty() {
    let req = ShortenRequest::default();
    assert_eq!(req.url, "");
    assert_eq!(pairs(&req.form_fields()), vec![("url", "")]);
    let req = EmojiRequest::default();
    assert_eq!(req.url, "");
    assert_eq!(req.emojies, None);
    let req = StatsRequest::default();
    assert_eq!(req.short_code, "");
    assert_eq!(req.password, None);
}

#[test]
fn export_format_names() {
    assert_eq!(ExportFormat::JSON.as_str(), "json");
    assert_eq!(ExportFormat::CSV.as_str(), "csv");
    assert_eq!(ExportFormat::XLSX.as_str(), "xlsx");
    assert_eq!(ExportFormat::XML.as_str(), "xml");
}

#[test]
fn export_response_hands_back_its_bytes() {
    let resp = ExportResponse::new(vec![0x50, 0x4b, 0x03, 0x04, 0x00, 0xff]);
    assert_eq!(resp.data(), &[0x50, 0x4b, 0x03, 0x04, 0x00, 0xff]);
    let empty = ExportResponse::new(Vec::new());
    assert!(empty.data().is_empty());
}

#[test]
fn responses_are_plain_data() {
    let shorten = ShortenResponse {
        short_url: "https://spoo.me/abc".to_string(),
        domain: "spoo.me".to_string(),
        original_url: "https://example.com".to_string(),
    };
    assert!(shorten.short_url.starts_with("https://spoo.me/"));
    assert_eq!(shorten.clone().original_url, "https://example.com");
    let emoji = EmojiResponse {
        short_url: "https://spoo.me/x".to_string(),
        domain: "spoo.me".to_string(),
        original_url: "https://example.com".to_string(),
    };
    assert_eq!(emoji.domain, "spoo.me");
    let mut per_day = std::collections::HashMap::new();
    per_day.insert("2024-01-01".to_string(), 0);
    let stats = StatsResponse {
        short_code: "ga".to_string(),
        url: "https://google.com".to_string(),
        total_clicks: 3,
        total_unique_clicks: 2,
        creation_date: Some("2023-05-01".to_string()),
        expired: None,
        last_click: None,
        last_click_browser: None,
        last_click_os: None,
        max_clicks: None,
        password: None,
        block_bots: None,
        bots: None,
        browser: None,
        country: None,
        counter: Some(per_day),
        unique_browser: None,
        unique_country: None,
        unique_counter: None,
        unique_os_name: None,
        unique_referrer: None,
    };
    assert!(stats.total_clicks > 0);
    assert!(stats.creation_date.is_some());
    // A count of zero that the service sent is not an absent count.
    assert_eq!(stats.counter.as_ref().and_then(|days| days.get("2024-01-01")), Some(&0));
    assert!(stats.unique_counter.is_none());
}
