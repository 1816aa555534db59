use prodzilla::payload::{
    alert_json, generic_body_from, is_slack_url, slack_body_from, slack_text_for,
};
use prodzilla::timestamp::UtcTimestamp;

fn t_1700000000() -> UtcTimestamp {
    UtcTimestamp::new(1700000000, 0).unwrap()
}

#[test]
fn timestamp_accepts_rfc3339_years_only() {
    assert!(UtcTimestamp::new(0, 0).is_some());
    assert!(UtcTimestamp::new(-62167219200, 0).is_some());
    assert!(UtcTimestamp::new(-62167219201, 0).is_none());
    assert!(UtcTimestamp::new(253402300799, 999_999_999).is_some());
    assert!(UtcTimestamp::new(253402300800, 0).is_none());
    assert!(UtcTimestamp::new(0, 1_000_000_000).is_none());
    let t = UtcTimestamp::new(12, 34).unwrap();
    assert_eq!(t.secs(), 12);
    assert_eq!(t.nanos(), 34);
}

#[test]
fn timestamp_renders_display_and_rfc3339() {
    let t = t_1700000000();
    assert_eq!(t.display_text(), "2023-11-14 22:13:20 UTC");
    assert_eq!(t.rfc3339_text(), "2023-11-14T22:13:20Z");
    let u = UtcTimestamp::new(1700000000, 123_000_000).unwrap();
    assert_eq!(u.rfc3339_text(), "2023-11-14T22:13:20.123Z");
    let edge = UtcTimestamp::new(-62167219200, 0).unwrap();
    assert_eq!(edge.rfc3339_text(), "0000-01-01T00:00:00Z");
}

#[test]
fn slack_marker_is_a_plain_substring_test() {
    assert!(is_slack_url("https://hooks.slack.com/services/x"));
    assert!(is_slack_url("https://proxy.example.com/?to=https://hooks.slack.com/a"));
    assert!(is_slack_url("https://hooks.slack.com"));
    assert!(!is_slack_url("https://hooks.slack.co"));
    assert!(!is_slack_url("http://hooks.slack.com/services/x"));
    assert!(!is_slack_url("https://example.com/hook1"));
    assert!(!is_slack_url(""));
}

#[test]
fn frames_are_exact() {
    assert_eq!(slack_text_for("P", "T"), "Prodzilla probe P failed at T");
    assert_eq!(slack_body_from("\"x\""), "{\"text\":\"x\"}");
    assert_eq!(
        generic_body_from("\"n\"", "\"t\""),
        "{\"message\":\"Probe failed.\",\"probe_name\":\"n\",\"failure_timestamp\":\"t\"}"
    );
}

#[test]
fn slack_destination_gets_text_body() {
    let body = alert_json(
        &"https://hooks.slack.com/services/x".to_owned(),
        &"Checkout Flow".to_owned(),
        &t_1700000000(),
    )
    .unwrap();
    assert_eq!(
        body,
        "{\"text\":\"Prodzilla probe Checkout Flow failed at 2023-11-14 22:13:20 UTC\"}"
    );
}

#[test]
fn marker_anywhere_in_url_means_slack() {
    let t = UtcTimestamp::new(1704164645, 0).unwrap();
    let body = alert_json(
        &"https://example.com/relay?to=https://hooks.slack.com/services/x".to_owned(),
        &"Checkout Flow".to_owned(),
        &t,
    )
    .unwrap();
    assert_eq!(
        body,
        "{\"text\":\"Prodzilla probe Checkout Flow failed at 2024-01-02 03:04:05 UTC\"}"
    );
    let generic = alert_json(&"https://example.com/hook".to_owned(), &"Checkout Flow".to_owned(), &t).unwrap();
    assert_eq!(
        generic,
        "{\"message\":\"Probe failed.\",\"probe_name\":\"Checkout Flow\",\"failure_timestamp\":\"2024-01-02T03:04:05Z\"}"
    );
}

#[test]
fn generic_destination_gets_fielded_body() {
    let body = alert_json(
        &"https://example.com/hook1".to_owned(),
        &"Checkout Flow".to_owned(),
        &t_1700000000(),
    )
    .unwrap();
    assert_eq!(
        body,
        "{\"message\":\"Probe failed.\",\"probe_name\":\"Checkout Flow\",\"failure_timestamp\":\"2023-11-14T22:13:20Z\"}"
    );
}

#[test]
fn probe_name_is_escaped_in_both_shapes() {
    let name = "say \"hi\"\\".to_owned();
    let slack = alert_json(&"https://hooks.slack.com/s".to_owned(), &name, &t_1700000000()).unwrap();
    assert_eq!(
        slack,
        "{\"text\":\"Prodzilla probe say \\\"hi\\\"\\\\ failed at 2023-11-14 22:13:20 UTC\"}"
    );
    let generic = alert_json(&"https://example.com/h".to_owned(), &name, &t_1700000000()).unwrap();
    assert_eq!(
        generic,
        "{\"message\":\"Probe failed.\",\"probe_name\":\"say \\\"hi\\\"\\\\\",\"failure_timestamp\":\"2023-11-14T22:13:20Z\"}"
    );
}
