use chrono::{Datelike, NaiveTime, TimeDelta, Timelike, Utc};
use cjtoolkit_structured_validator::types::date::{CalendarDate, DateRules, DateValue};
use cjtoolkit_structured_validator::types::date_time::{DateTimeRules, DateTimeValue, UnixTime};
use cjtoolkit_structured_validator::types::naive_date_time::{
    NaiveDateTimeRules, NaiveDateTimeValue,
};
use cjtoolkit_structured_validator::types::time::{ClockTime, TimeRules, TimeValue};
use cjtoolkit_structured_validator::types::times_humantime::{self, EpochTime};
use std::ops::{Add, Sub};
use std::time::{Duration, SystemTime, UNIX_EPOCH};

fn today_plus(days: i64) -> Option<CalendarDate> {
    let d = Utc::now().date_naive().add(TimeDelta::days(days));
    CalendarDate::from_num_days_from_ce(d.num_days_from_ce())
}

fn now_plus(delta: TimeDelta) -> Option<UnixTime> {
    let d = Utc::now().add(delta);
    UnixTime::from_timestamp(d.timestamp(), d.timestamp_subsec_nanos())
}

fn clock(t: Option<NaiveTime>) -> Option<ClockTime> {
    t.and_then(|t| ClockTime::from_num_seconds_from_midnight(t.num_seconds_from_midnight(), t.nanosecond()))
}

fn system(t: SystemTime) -> Option<EpochTime> {
    let d = t.duration_since(UNIX_EPOCH).unwrap_or_default();
    EpochTime::from_parts(d.as_secs(), d.subsec_nanos())
}

#[test]
fn date_test_parse_custom() {
    let subject = today_plus(0);
    let rules = DateRules::default();
    let result = DateValue::parse_custom(subject, rules);
    assert!(result.is_ok());
}

#[test]
fn date_test_parse_default_err() {
    let result = DateValue::parse(None);
    assert!(result.is_err());
}

#[test]
fn date_test_parse_default_max_min_ok() {
    let result = DateValue::parse(today_plus(0));
    assert!(result.is_ok());
}

#[test]
fn date_test_parse_default_max_err() {
    let result = DateValue::parse(today_plus(31));
    assert!(result.is_err());
}

#[test]
fn date_test_parse_default_min_err() {
    let result = DateValue::parse(today_plus(-1));
    assert!(result.is_err());
}

#[test]
fn date_messages_show_the_bound() {
    let min = CalendarDate::from_ymd(2024, 1, 2);
    let rules = DateRules { is_mandatory: true, min, max: CalendarDate::from_ymd(2024, 1, 31) };
    let err = DateValue::parse_custom(CalendarDate::from_ymd(2024, 1, 1), rules).unwrap_err();
    assert_eq!(err.0.as_original_message_vec(), vec!["Must be after '2024-01-02'".to_string()]);
    let rules = DateRules { is_mandatory: true, min, max: CalendarDate::from_ymd(2024, 1, 31) };
    let err = DateValue::parse_custom_with_format(CalendarDate::from_ymd(2024, 2, 1), rules, Some("%d/%m/%Y")).unwrap_err();
    assert_eq!(err.0.as_original_message_vec(), vec!["Must be before '31/01/2024'".to_string()]);
    assert!(CalendarDate::from_ymd(2024, 2, 30).is_none());
    assert_eq!(CalendarDate::from_ymd(1, 1, 1).map(|d| d.num_days_from_ce()), Some(1));
    let optional = DateRules { is_mandatory: false, min, max: None };
    assert_eq!(DateValue::parse_custom(None, optional).unwrap().as_naive_date(), None);
}

#[test]
fn date_value_keeps_the_date() {
    let d = CalendarDate::from_ymd(2030, 6, 15);
    let rules = DateRules { is_mandatory: true, min: None, max: None };
    assert_eq!(DateValue::parse_custom(d, rules).unwrap().as_naive_date(), d);
}

#[test]
fn time_test_parse_custom() {
    let subject = clock(NaiveTime::from_hms_opt(10, 0, 0));
    let rules = TimeRules::default();
    let result = TimeValue::parse_custom(subject, rules);
    assert!(result.is_ok());
}

#[test]
fn time_test_parse_default_err() {
    let result = TimeValue::parse(None);
    assert!(result.is_err());
}

#[test]
fn time_test_parse_default_max_min_ok() {
    let result = TimeValue::parse(clock(NaiveTime::from_hms_opt(10, 0, 0)));
    assert!(result.is_ok());
}

#[test]
fn time_test_parse_default_max_err() {
    let result = TimeValue::parse(clock(NaiveTime::from_hms_opt(18, 0, 0)));
    assert!(result.is_err());
}

#[test]
fn time_test_parse_default_min_err() {
    let result = TimeValue::parse(clock(NaiveTime::from_hms_opt(8, 0, 0)));
    assert!(result.is_err());
}

#[test]
fn time_messages_and_wrap() {
    let err = TimeValue::parse(ClockTime::from_hms(18, 0, 0)).unwrap_err();
    assert_eq!(err.0.as_original_message_vec(), vec!["Must be before '17:00:00'".to_string()]);
    let night = TimeRules { is_mandatory: true, min: ClockTime::from_hms(21, 0, 0), max: ClockTime::from_hms(6, 0, 0) };
    assert!(TimeValue::parse_custom(ClockTime::from_hms(23, 30, 0), night).is_ok());
    let night = TimeRules { is_mandatory: true, min: ClockTime::from_hms(21, 0, 0), max: ClockTime::from_hms(6, 0, 0) };
    let err = TimeValue::parse_custom(ClockTime::from_hms(10, 0, 0), night).unwrap_err();
    assert_eq!(err.0.as_original_message_vec(), vec!["Must be after '21:00:00'".to_string()]);
    let err = TimeValue::parse_with_format(ClockTime::from_hms(7, 5, 0), Some("%H.%M")).unwrap_err();
    assert_eq!(err.0.as_original_message_vec(), vec!["Must be after '09.00'".to_string()]);
    assert!(ClockTime::from_hms(24, 0, 0).is_none());
    assert!(ClockTime::from_num_seconds_from_midnight(59, 1_500_000_000).is_some());
    assert!(ClockTime::from_num_seconds_from_midnight(58, 1_500_000_000).is_none());
}

#[test]
fn date_time_test_parse_custom() {
    let subject = now_plus(TimeDelta::days(1));
    let rules = DateTimeRules::default();
    let result = DateTimeValue::parse_custom(subject, rules);
    assert!(result.is_ok());
}

#[test]
fn date_time_test_parse_default_err() {
    let result = DateTimeValue::parse(None);
    assert!(result.is_err());
}

#[test]
fn date_time_test_parse_default_max_min_ok() {
    let result = DateTimeValue::parse(now_plus(TimeDelta::days(1)));
    assert!(result.is_ok());
}

#[test]
fn date_time_test_parse_default_max_err() {
    let result = DateTimeValue::parse(now_plus(TimeDelta::days(31)));
    assert!(result.is_err());
}

#[test]
fn date_time_test_parse_default_min_err() {
    let result = DateTimeValue::parse(now_plus(TimeDelta::days(-1)));
    assert!(result.is_err());
}

#[test]
fn date_time_messages_use_rfc3339() {
    let rules = DateTimeRules { is_mandatory: true, min: UnixTime::from_timestamp(1431648000, 0), max: None };
    let err = DateTimeValue::parse_custom(UnixTime::from_timestamp(0, 0), rules).unwrap_err();
    assert_eq!(err.0.as_original_message_vec(), vec!["Must be after '2015-05-15T00:00:00+00:00'".to_string()]);
}

#[test]
fn naive_date_time_test_parse_custom() {
    let subject = now_plus(TimeDelta::days(1));
    let rules = NaiveDateTimeRules::default();
    let result = NaiveDateTimeValue::parse_custom(subject, rules);
    assert!(result.is_ok());
}

#[test]
fn naive_date_time_test_parse_default_err() {
    let result = NaiveDateTimeValue::parse(None);
    assert!(result.is_err());
}

#[test]
fn naive_date_time_test_parse_default_max_min_ok() {
    let result = NaiveDateTimeValue::parse(now_plus(TimeDelta::days(1)));
    assert!(result.is_ok());
}

#[test]
fn naive_date_time_test_parse_default_max_err() {
    let result = NaiveDateTimeValue::parse(now_plus(TimeDelta::days(31)));
    assert!(result.is_err());
}

#[test]
fn naive_date_time_test_parse_default_min_err() {
    let result = NaiveDateTimeValue::parse(now_plus(TimeDelta::days(-1)));
    assert!(result.is_err());
}

#[test]
fn naive_date_time_messages() {
    let rules = NaiveDateTimeRules { is_mandatory: true, min: None, max: UnixTime::from_timestamp(1431648000, 0) };
    let err = NaiveDateTimeValue::parse_custom(UnixTime::from_timestamp(1431648001, 0), rules).unwrap_err();
    assert_eq!(err.0.as_original_message_vec(), vec!["Must be before '2015-05-15 00:00:00 UTC'".to_string()]);
    let rules = NaiveDateTimeRules { is_mandatory: true, min: None, max: UnixTime::from_timestamp(1431648000, 0) };
    let err = NaiveDateTimeValue::parse_custom_with_format(UnixTime::from_timestamp(1431648001, 0), rules, Some("%Y/%m/%d")).unwrap_err();
    assert_eq!(err.0.as_original_message_vec(), vec!["Must be before '2015/05/15'".to_string()]);
}

#[test]
fn mod_test_parse_custom() {
    let rules = times_humantime::DateTimeRules::default();
    let subject = system(SystemTime::now().add(Duration::from_secs(10)));
    let result = times_humantime::DateTimeValue::parse_custom(subject, rules);
    assert!(result.is_ok());
}

#[test]
fn mod_test_parse_default_err() {
    let result = times_humantime::DateTimeValue::parse(None);
    assert!(result.is_err());
}

#[test]
fn test_parse_default_ok() {
    let subject = system(SystemTime::now().add(Duration::from_secs(10)));
    let result = times_humantime::DateTimeValue::parse(subject);
    assert!(result.is_ok());
}

#[test]
fn mod_test_parse_default_max_err() {
    let subject = system(SystemTime::now().add(Duration::from_secs(31 * 24 * 60 * 60)));
    let result = times_humantime::DateTimeValue::parse(subject);
    assert!(result.is_err());
}

#[test]
fn mod_test_parse_default_min_err() {
    let subject = system(SystemTime::now().sub(Duration::from_secs(10)));
    let result = times_humantime::DateTimeValue::parse(subject);
    assert!(result.is_err());
}

#[test]
fn humantime_messages() {
    let rules = times_humantime::DateTimeRules { is_mandatory: true, min: EpochTime::from_parts(1518568087, 0), max: None };
    let err = times_humantime::DateTimeValue::parse_custom(EpochTime::from_parts(0, 0), rules).unwrap_err();
    assert_eq!(err.0.as_original_message_vec(), vec!["Must be after '2018-02-14T00:28:07Z'".to_string()]);
    assert!(EpochTime::from_parts(253402300800, 0).is_none());
}

#[test]
fn plain_types_reject_out_of_range_values() {
    assert!(CalendarDate::from_num_days_from_ce(100_000_000).is_none());
    assert_eq!(CalendarDate::from_num_days_from_ce(730_000).map(|d| d.num_days_from_ce()), Some(730_000));
    assert!(UnixTime::from_timestamp(i64::MAX, 0).is_none());
    assert!(UnixTime::from_timestamp(0, 2_000_000_000).is_none());
    assert_eq!(UnixTime::from_timestamp(5, 6).map(|t| (t.timestamp(), t.timestamp_subsec_nanos())), Some((5, 6)));
    let day = CalendarDate::from_ymd(2024, 2, 28).unwrap();
    assert_eq!(day.add_days(2), CalendarDate::from_ymd(2024, 3, 1));
}
