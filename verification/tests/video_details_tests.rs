use chat_scraper::video_details::VideoDetails;

const WATCH_PAGE: &str = r#"<script>var cfg = {"INNERTUBE_API_KEY":"K","other":"field"};{"continuation":"T0","more":1};var player = "{\"approxDurationMs\":\"600000\",\"x\":1}";</script>"#;

#[test]
fn api_key_is_the_shortest_quoted_capture() {
    // The lazy capture stops at the first closing quote.
    let html = r#"{"INNERTUBE_API_KEY":"abc","next":"def"}"#;
    assert_eq!(VideoDetails::extract_api_key_from_html(html).as_deref(), Some("abc"));
}

#[test]
fn api_key_absent_yields_none() {
    assert_eq!(VideoDetails::extract_api_key_from_html("<html></html>"), None);
}

#[test]
fn continuation_capture_is_alphanumeric_only() {
    let html = r#"{"continuation":"0ofMyANx","rest":true}"#;
    assert_eq!(VideoDetails::extract_continuation_from_html(html).as_deref(), Some("0ofMyANx"));
    // A value that opens with a non-alphanumeric character never matches.
    let odd = r#"{"continuation":"%%%","rest":true}"#;
    assert_eq!(VideoDetails::extract_continuation_from_html(odd), None);
}

#[test]
fn duration_is_read_from_the_escaped_field() {
    let html = r#"x = "{\"approxDurationMs\":\"600000\"}";"#;
    assert_eq!(VideoDetails::extract_duration_from_html(html), Some(600000));
}

#[test]
fn duration_too_large_for_the_field_yields_none() {
    let html = r#"x = "{\"approxDurationMs\":\"99999999999\"}";"#;
    assert_eq!(VideoDetails::extract_duration_from_html(html), None);
}

#[test]
fn details_resolve_from_one_watch_page() {
    // Identifier "abc123" resolving to access key "K", initial
    // continuation "T0" and duration 600000 ms.
    let details = VideoDetails::from_html("abc123", WATCH_PAGE).unwrap();
    assert_eq!(details.video_id, "abc123");
    assert_eq!(details.api_key, "K");
    assert_eq!(details.continuation, "T0");
    assert_eq!(details.duration, 600000);
}

#[test]
fn details_missing_any_field_yield_none() {
    let no_key = r#"{"continuation":"T0"} "{\"approxDurationMs\":\"1\"}""#;
    assert!(VideoDetails::from_html("abc123", no_key).is_none());
    let no_continuation = r#"{"INNERTUBE_API_KEY":"K"} "{\"approxDurationMs\":\"1\"}""#;
    assert!(VideoDetails::from_html("abc123", no_continuation).is_none());
    let no_duration = r#"{"INNERTUBE_API_KEY":"K","continuation":"T0"}"#;
    assert!(VideoDetails::from_html("abc123", no_duration).is_none());
}

#[test]
fn video_url_names_the_identifier() {
    assert_eq!(
        VideoDetails::build_video_url("abc123"),
        "https://www.youtube.com/watch?v=abc123"
    );
}
