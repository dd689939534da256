use bbbs::date_time::{DateTime, DateTimeErrorReason};

#[test]
fn test_from_unix_timestamp_millis() {
    assert_eq!(
        DateTime::from_unix_timestamp_millis(0).to_string(),
        "1970-01-01T00:00:00.000Z"
    );
    assert_eq!(
        DateTime::from_unix_timestamp_millis(1).to_string(),
        "1970-01-01T00:00:00.001Z"
    );
    assert_eq!(
        DateTime::from_unix_timestamp_millis(1_000).to_string(),
        "1970-01-01T00:00:01.000Z"
    );
    assert_eq!(
        DateTime::from_unix_timestamp_millis(86_400_000).to_string(),
        "1970-01-02T00:00:00.000Z"
    );
}

#[test]
fn test_now() {
    let now = DateTime::now();
    assert!(now.to_unix_timestamp_millis() >= 0);
}

#[test]
fn test_to_unix_timestamp_millis() {
    let date_time = DateTime::from_unix_timestamp_millis(1_000);
    assert_eq!(date_time.to_unix_timestamp_millis(), 1_000);
}

#[test]
fn test_impl_from_i64() {
    let date_time = DateTime::from(1_000_i64);
    assert_eq!(date_time.to_unix_timestamp_millis(), 1_000);
}

#[test]
fn test_impl_from_date_time_for_i64() {
    let date_time = DateTime::from_unix_timestamp_millis(1_000);
    let unix_timestamp_millis = i64::from(date_time);
    assert_eq!(unix_timestamp_millis, 1_000);
}

#[test]
fn date_time_test_impl_display() {
    let date_time = DateTime::from_unix_timestamp_millis(1_000);
    assert_eq!(date_time.to_string(), "1970-01-01T00:00:01.000Z");
}

#[test]
fn date_time_test_impl_from_str() {
    let date_time = DateTime::from_str("1970-01-01T00:00:02.003Z").unwrap();
    assert_eq!(date_time.to_unix_timestamp_millis(), 2_003);
    assert_eq!(
        DateTime::from_str("1970-01-01T00:00:02.003+09:00")
            .unwrap()
            .to_string(),
        "1969-12-31T15:00:02.003Z"
    );

    assert!(DateTime::from_str("invalid").is_err());
    assert!(DateTime::from_str("1970-01-01T00:00:02.003004Z").is_err());
}

#[test]
fn date_time_from_parsed_keeps_whole_milliseconds() {
    let parsed = DateTime::from_parsed(Some((2_003, 3_000_000))).unwrap();
    assert_eq!(parsed.to_unix_timestamp_millis(), 2_003);
    let finer = DateTime::from_parsed(Some((2_003, 3_004_000))).unwrap_err();
    assert_eq!(finer.reason, DateTimeErrorReason::FinerThanMillis);
    let rejected = DateTime::from_parsed(None).unwrap_err();
    assert_eq!(rejected.reason, DateTimeErrorReason::NotRfc3339);
    assert_eq!(rejected.to_string(), "date time error");
}

#[test]
fn date_time_round_trips_through_text() {
    let millis = 1_696_161_600_123_i64;
    let text = DateTime::from_unix_timestamp_millis(millis).to_string();
    assert_eq!(text, "2023-10-01T12:00:00.123Z");
    assert_eq!(
        DateTime::from_str(&text).unwrap().to_unix_timestamp_millis(),
        millis
    );
    let before_epoch = DateTime::from_unix_timestamp_millis(-1).to_string();
    assert_eq!(before_epoch, "1969-12-31T23:59:59.999Z");
}

#[test]
fn date_time_orders_by_instant() {
    let earlier = DateTime::from_unix_timestamp_millis(5);
    let later = DateTime::from_unix_timestamp_millis(6);
    assert!(earlier < later);
    assert_eq!(earlier, DateTime::from(5_i64));
}
