use chat_scraper::action::ChatAction;
use chat_scraper::aggregator::Aggregator;
use chat_scraper::progress::report_progress;

fn record(timestamp_ms: Option<u64>) -> ChatAction {
    ChatAction::new(serde_json::Value::Null, timestamp_ms)
}

#[test]
fn progress_is_the_last_timestamp_over_the_duration() {
    // 300000 ms into a 600000 ms stream: 50.00%, i.e. 5000 hundredths.
    let batch = vec![record(Some(100)), record(Some(300000))];
    assert_eq!(report_progress(&batch, 600000), Some(5000));
}

#[test]
fn progress_rounds_down_to_hundredths() {
    // 1 ms of 3000 ms is 0.0333..%: reported as 3 hundredths.
    let batch = vec![record(Some(1))];
    assert_eq!(report_progress(&batch, 3000), Some(3));
}

#[test]
fn progress_of_empty_batch_is_skipped() {
    assert_eq!(report_progress(&Vec::new(), 600000), None);
}

#[test]
fn progress_without_last_timestamp_is_skipped() {
    // Only the batch's last record decides; its missing timestamp is
    // silently skipped, not an error.
    let batch = vec![record(Some(100)), record(None)];
    assert_eq!(report_progress(&batch, 600000), None);
}

#[test]
fn progress_is_non_decreasing_over_increasing_timestamps() {
    let duration = 600000;
    let timestamps = [100_u64, 5000, 5000, 120000, 300000, 599999, 600000];
    let mut last = 0_u128;
    for ts in timestamps {
        let batch = vec![record(Some(ts))];
        let reported = report_progress(&batch, duration).unwrap();
        assert!(reported >= last, "progress moved backwards: {reported} < {last}");
        last = reported;
    }
    assert_eq!(last, 10000);
}

#[test]
fn aggregator_concatenates_batches_in_submission_order() {
    let mut aggregator = Aggregator::new();
    aggregator.submit(vec![record(Some(1)), record(Some(2))]);
    aggregator.submit(vec![record(Some(3))]);
    aggregator.submit(vec![record(Some(4)), record(Some(5))]);
    assert_eq!(aggregator.len(), 5);
    let all = aggregator.finalize();
    let stamps: Vec<Option<u64>> = all.iter().map(|a| a.timestamp_ms).collect();
    assert_eq!(stamps, [Some(1), Some(2), Some(3), Some(4), Some(5)]);
}
