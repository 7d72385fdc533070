use chat_scraper::action::ChatAction;
use chat_scraper::fetcher::{build_api_url, classify, parse_page, FetchError};

fn marker(text: &str) -> serde_json::Value {
    serde_json::Value::String(text.to_string())
}

#[test]
fn classify_continues_when_both_fields_are_present() {
    let batch = vec![ChatAction::new(marker("m1"), None)];
    let page = classify(Some("NEXT".to_string()), Some(batch)).unwrap();
    assert_eq!(page.next_continuation.as_deref(), Some("NEXT"));
    assert_eq!(page.actions.len(), 1);
    assert_eq!(page.actions[0].payload, marker("m1"));
}

#[test]
fn classify_ends_stream_when_continuation_is_absent() {
    let batch = vec![ChatAction::new(marker("m1"), None), ChatAction::new(marker("m2"), None)];
    let page = classify(None, Some(batch)).unwrap();
    assert!(page.next_continuation.is_none());
    assert_eq!(page.actions.len(), 2);
}

#[test]
fn classify_ends_stream_with_empty_batch_when_both_are_absent() {
    let page = classify(None, None).unwrap();
    assert!(page.next_continuation.is_none());
    assert!(page.actions.is_empty());
}

#[test]
fn classify_rejects_missing_actions_as_malformed() {
    // A present continuation with an absent batch is a malformed
    // response, not the designed end-of-stream signal.
    let r = classify(Some("NEXT".to_string()), None);
    assert!(matches!(r, Err(FetchError::Malformed)));
}

#[test]
fn parse_page_reads_token_and_batch_from_the_nested_path() {
    let body = r#"{
        "continuationContents": {
            "liveChatContinuation": {
                "continuations": [
                    { "liveChatReplayContinuationData": { "continuation": "NEXTTOKEN%3D" } }
                ],
                "actions": [
                    { "replayChatItemAction": { "videoOffsetTimeMsec": "1000" } },
                    { "replayChatItemAction": { "videoOffsetTimeMsec": "2000" } }
                ]
            }
        }
    }"#;
    let page = parse_page(body).unwrap();
    assert_eq!(page.next_continuation.as_deref(), Some("NEXTTOKEN%3D"));
    assert_eq!(page.actions.len(), 2);
    assert_eq!(page.actions[0].timestamp_ms, Some(1000));
    assert_eq!(page.actions[1].timestamp_ms, Some(2000));
}

#[test]
fn parse_page_treats_absent_continuation_as_end_of_stream() {
    let body = r#"{
        "continuationContents": {
            "liveChatContinuation": {
                "actions": [
                    { "replayChatItemAction": { "videoOffsetTimeMsec": "3000" } }
                ]
            }
        }
    }"#;
    let page = parse_page(body).unwrap();
    assert!(page.next_continuation.is_none());
    assert_eq!(page.actions.len(), 1);
}

#[test]
fn parse_page_rejects_missing_actions_with_present_continuation() {
    let body = r#"{
        "continuationContents": {
            "liveChatContinuation": {
                "continuations": [
                    { "liveChatReplayContinuationData": { "continuation": "NEXTTOKEN%3D" } }
                ]
            }
        }
    }"#;
    assert!(matches!(parse_page(body), Err(FetchError::Malformed)));
}

#[test]
fn parse_page_rejects_invalid_json() {
    assert!(matches!(parse_page("not json {"), Err(FetchError::Malformed)));
}

#[test]
fn parse_page_keeps_records_without_timestamps() {
    let body = r#"{
        "continuationContents": {
            "liveChatContinuation": {
                "actions": [
                    { "addBannerToLiveChatCommand": {} },
                    { "replayChatItemAction": { "videoOffsetTimeMsec": "5" } }
                ]
            }
        }
    }"#;
    let page = parse_page(body).unwrap();
    assert_eq!(page.actions.len(), 2);
    assert_eq!(page.actions[0].timestamp_ms, None);
    assert_eq!(page.actions[1].timestamp_ms, Some(5));
}

#[test]
fn api_url_carries_token_and_key() {
    let url = build_api_url("TOKEN", "KEY");
    assert_eq!(
        url,
        "https://www.youtube.com/youtubei/v1/live_chat/get_live_chat_replay?continuation=TOKEN%253D&key=KEY"
    );
}
