use cjtoolkit_structured_validator::base::date_time::{
    DateTimeData, DateTimeKind, DateTimeMandatoryRules, DateTimeRangeRules,
};
use cjtoolkit_structured_validator::common::locale::{LocaleMessage, ValidateErrorCollector};

fn data(ts: i64, nano: u32) -> DateTimeData {
    DateTimeData {
        kind: DateTimeKind::DateTime,
        date_formatted: "".to_string(),
        timestamp_seconds_days: ts,
        subsec_nano: nano,
    }
}

fn time(hour: i64, minute: i64, text: &str) -> DateTimeData {
    DateTimeData {
        kind: DateTimeKind::Time,
        date_formatted: text.to_string(),
        timestamp_seconds_days: hour * 3600 + minute * 60,
        subsec_nano: 0,
    }
}

#[test]
fn test_order() {
    let a = DateTimeData {
        kind: DateTimeKind::DateTime,
        date_formatted: "en".to_string(),
        timestamp_seconds_days: 1,
        subsec_nano: 1,
    };
    let b = DateTimeData {
        kind: DateTimeKind::DateTime,
        date_formatted: "en".to_string(),
        timestamp_seconds_days: 1,
        subsec_nano: 2,
    };
    assert!(a < b);
}

#[test]
fn equality_ignores_kind_and_text() {
    let a = DateTimeData {
        kind: DateTimeKind::Date,
        date_formatted: "one".to_string(),
        timestamp_seconds_days: 7,
        subsec_nano: 3,
    };
    let b = DateTimeData {
        kind: DateTimeKind::Time,
        date_formatted: "two".to_string(),
        timestamp_seconds_days: 7,
        subsec_nano: 3,
    };
    assert!(a == b);
    assert!(!(a < b) && !(b < a));
    assert!(data(2, 0) > data(1, 999));
}

#[test]
fn rules_test_empty_value() {
    let mut messages = ValidateErrorCollector::new();
    let subject: Option<DateTimeData> = None;
    let rules = DateTimeMandatoryRules { is_mandatory: true };
    rules.check(&mut messages, subject.as_ref());
    assert_eq!(messages.len(), 1);
    assert_eq!(messages.0[0].0, "Cannot be empty");
}

#[test]
fn rules_test_not_empty_value() {
    let mut messages = ValidateErrorCollector::new();
    let subject: Option<DateTimeData> = Some(data(1, 1));
    let rules = DateTimeMandatoryRules { is_mandatory: true };
    rules.check(&mut messages, subject.as_ref());
    assert_eq!(messages.len(), 0);
}

#[test]
fn rules_test_min() {
    let mut messages = ValidateErrorCollector::new();
    let rules = DateTimeRangeRules { min: Some(data(1, 2)), max: None };
    rules.check(&mut messages, Some(&data(1, 1)));
    assert_eq!(messages.len(), 1);
    assert_eq!(messages.0[0].0, "Must be after ''");

    let mut messages = ValidateErrorCollector::new();
    let rules = DateTimeRangeRules { min: Some(data(1, 2)), max: None };
    rules.check(&mut messages, Some(&data(1, 3)));
    assert_eq!(messages.len(), 0);

    let mut messages = ValidateErrorCollector::new();
    let rules = DateTimeRangeRules { min: Some(data(2, 1)), max: None };
    rules.check(&mut messages, Some(&data(1, 1)));
    assert_eq!(messages.len(), 1);
    assert_eq!(messages.0[0].0, "Must be after ''");

    let mut messages = ValidateErrorCollector::new();
    let rules = DateTimeRangeRules { min: Some(data(2, 1)), max: None };
    rules.check(&mut messages, Some(&data(3, 1)));
    assert_eq!(messages.len(), 0);
}

#[test]
fn time_window_without_wrap() {
    let rules = DateTimeRangeRules {
        min: Some(time(9, 0, "09:00:00")),
        max: Some(time(17, 0, "17:00:00")),
    };
    let mut messages = ValidateErrorCollector::new();
    rules.check_time(&mut messages, Some(&time(10, 0, "10:00:00")));
    assert!(messages.is_empty());
    rules.check_time(&mut messages, Some(&time(18, 0, "18:00:00")));
    assert_eq!(messages.len(), 1);
    assert_eq!(messages.0[0].0, "Must be before '17:00:00'");
    let cause = messages.0[0].1.get_locale_data();
    assert_eq!(cause.name, "validate-time-max");
}

#[test]
fn time_window_wraps_past_midnight() {
    let rules = DateTimeRangeRules {
        min: Some(time(21, 0, "21:00:00")),
        max: Some(time(6, 0, "06:00:00")),
    };
    let mut messages = ValidateErrorCollector::new();
    rules.check_time(&mut messages, Some(&time(23, 30, "23:30:00")));
    assert!(messages.is_empty());
    rules.check_time(&mut messages, Some(&time(10, 0, "10:00:00")));
    assert_eq!(messages.len(), 1);
    assert_eq!(messages.0[0].0, "Must be after '21:00:00'");
    let cause = messages.0[0].1.get_locale_data();
    assert_eq!(cause.name, "validate-time-min");
    // The plain check does not wrap: 23:30 lies after 06:00.
    let mut messages = ValidateErrorCollector::new();
    rules.check(&mut messages, Some(&time(23, 30, "23:30:00")));
    assert_eq!(messages.len(), 1);
    assert_eq!(messages.0[0].0, "Must be before '06:00:00'");
}

#[test]
fn range_locale_keys_follow_kind() {
    let mut low = data(1, 0);
    low.kind = DateTimeKind::Date;
    low.date_formatted = "2024-01-01".to_string();
    let rules = DateTimeRangeRules { min: Some(low), max: None };
    let mut messages = ValidateErrorCollector::new();
    rules.check(&mut messages, Some(&data(0, 0)));
    let cause = messages.0[0].1.get_locale_data();
    assert_eq!(cause.name, "validate-date-min");
    assert_eq!(cause.args[0].0, "min");
    assert_eq!(messages.0[0].0, "Must be after '2024-01-01'");
}

#[test]
fn time_window_near_the_largest_count_does_not_overflow() {
    let rules = DateTimeRangeRules { min: Some(data(i64::MAX, 0)), max: Some(data(i64::MAX - 10, 0)) };
    let mut messages = ValidateErrorCollector::new();
    rules.check_time(&mut messages, Some(&data(i64::MAX - 5, 0)));
    assert_eq!(messages.len(), 1);
    assert_eq!(messages.0[0].0, "Must be after ''");
    let mut messages = ValidateErrorCollector::new();
    rules.check_time(&mut messages, Some(&data(i64::MAX, 1)));
    assert!(messages.is_empty());
}
