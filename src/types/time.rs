//! Times of day: required by default, from 09:00 to 17:00; a window whose end
//! lies before its start wraps past midnight.
use crate::base::date_time::{
    check_date_time_field, time_field_entries, AsDateTimeData,
    DateTimeData, DateTimeDataView, DateTimeKind, DateTimeRangeRules,
};
use crate::base::string_rules::opt_text;
use crate::common::locale::{EntryView, ValidateErrorCollector, ValidateErrorStore};
use crate::common::validation_check::ValidationCheck;
use chrono::NaiveTime;
use std::fmt::Write;
use vstd::prelude::*;

verus! {

/// The seconds and nanoseconds that chrono accepts for a time of day: a
/// nanosecond part of a second or more stands for a leap second and is only
/// allowed in the last second of a minute.
pub open spec fn time_parts_valid(secs: u32, nano: u32) -> bool {
    secs < 86400 && nano < 2_000_000_000 && (nano < 1_000_000_000 || secs % 60 == 59)
}

/// The text of a time of day as chrono displays it (`%H:%M:%S%.f`).
pub uninterp spec fn time_text_of(secs: u32, nano: u32) -> Seq<char>;

/// Relies on `Display` of `chrono::NaiveTime`, a function of the time alone.
#[verifier::external_body]
fn time_text(secs: u32, nano: u32) -> (r: String)
    requires
        time_parts_valid(secs, nano),
    ensures
        r@ == time_text_of(secs, nano),
{
    match NaiveTime::from_num_seconds_from_midnight_opt(secs, nano) {
        Some(t) => t.to_string(),
        None => String::new(),
    }
}

/// The text of a time of day under a strftime-style format; `None` when
/// chrono cannot render that format.
pub uninterp spec fn time_format_of(secs: u32, nano: u32, format: Seq<char>) -> Option<Seq<char>>;

/// Relies on `chrono::NaiveTime::format`, rendered through `Display`, which
/// reports an error for a format it cannot render.
#[verifier::external_body]
fn time_format(secs: u32, nano: u32, format: &str) -> (r: Option<String>)
    requires
        time_parts_valid(secs, nano),
    ensures
        match r {
            Some(t) => time_format_of(secs, nano, format@) == Some(t@),
            None => time_format_of(secs, nano, format@) is None,
        },
{
    let mut out = String::new();
    match NaiveTime::from_num_seconds_from_midnight_opt(secs, nano) {
        Some(t) => match write!(out, "{}", t.format(format)) {
            Ok(()) => Some(out),
            Err(_) => None,
        },
        None => None,
    }
}

/// The text that a time shows under an optional format.
pub open spec fn time_display(secs: u32, nano: u32, format: Option<Seq<char>>) -> Seq<char> {
    match format {
        None => time_text_of(secs, nano),
        Some(f) => match time_format_of(secs, nano, f) {
            Some(t) => t,
            None => time_text_of(secs, nano),
        },
    }
}

/// The canonical form of a time of day: seconds from midnight and nanoseconds.
pub open spec fn time_view(t: (u32, u32), format: Option<Seq<char>>) -> DateTimeDataView {
    DateTimeDataView {
        kind: DateTimeKind::Time,
        formatted: time_display(t.0, t.1, format),
        timestamp_seconds_days: t.0 as i64,
        subsec_nano: t.1,
    }
}

/// A time of day, as seconds from midnight and nanoseconds.
#[derive(Clone, Copy, Debug, PartialEq, Eq)]
pub struct ClockTime {
    secs: u32,
    nano: u32,
}

impl View for ClockTime {
    type V = (u32, u32);

    closed spec fn view(&self) -> (u32, u32) {
        (self.secs, self.nano)
    }
}

impl ClockTime {
    #[verifier::type_invariant]
    spec fn inv(&self) -> bool {
        time_parts_valid(self.secs, self.nano)
    }

    pub fn from_num_seconds_from_midnight(secs: u32, nano: u32) -> (r: Option<ClockTime>)
        ensures
            r is Some <==> time_parts_valid(secs, nano),
            r matches Some(t) ==> t@ == (secs, nano),
    {
        if secs < 86400 && nano < 2_000_000_000 && (nano < 1_000_000_000 || secs % 60 == 59) {
            Some(ClockTime { secs, nano })
        } else {
            None
        }
    }

    /// Hour, minute and second of a time without a fraction.
    pub fn from_hms(hour: u32, min: u32, sec: u32) -> (r: Option<ClockTime>)
        ensures
            r is Some <==> (hour < 24 && min < 60 && sec < 60),
            r matches Some(t) ==> t@ == ((hour * 3600 + min * 60 + sec) as u32, 0u32),
    {
        if hour < 24 && min < 60 && sec < 60 {
            Some(ClockTime { secs: hour * 3600 + min * 60 + sec, nano: 0 })
        } else {
            None
        }
    }

    pub fn num_seconds_from_midnight(&self) -> (r: u32)
        ensures
            r == self@.0,
    {
        self.secs
    }

    pub fn nanosecond(&self) -> (r: u32)
        ensures
            r == self@.1,
    {
        self.nano
    }

    /// The canonical form, shown under `format` when one is given.
    pub fn to_date_time_data(&self, format: Option<&str>) -> (r: DateTimeData)
        ensures
            r@ == time_view(self@, opt_text(format)),
            r.timestamp_seconds_days < 86400,
    {
        proof {
            use_type_invariant(self);
        }
        let formatted = match format {
            None => time_text(self.secs, self.nano),
            Some(f) => match time_format(self.secs, self.nano, f) {
                Some(t) => t,
                None => time_text(self.secs, self.nano),
            },
        };
        DateTimeData {
            kind: DateTimeKind::Time,
            date_formatted: formatted,
            timestamp_seconds_days: self.secs as i64,
            subsec_nano: self.nano,
        }
    }
}

impl AsDateTimeData for ClockTime {
    open spec fn date_time_view(&self) -> DateTimeDataView {
        time_view(self@, None)
    }

    fn as_date_time_data(&self) -> (r: DateTimeData) {
        self.to_date_time_data(None)
    }
}

pub open spec fn opt_time_view(t: Option<ClockTime>, format: Option<Seq<char>>) -> Option<
    DateTimeDataView,
> {
    match t {
        Some(v) => Some(time_view(v@, format)),
        None => None,
    }
}

fn opt_time_data(t: Option<ClockTime>, format: Option<&str>) -> (r: Option<DateTimeData>)
    ensures
        match r {
            Some(v) => opt_time_view(t, opt_text(format)) == Some(v@) && v.timestamp_seconds_days
                < 86400,
            None => t is None,
        },
{
    match t {
        Some(v) => Some(v.to_date_time_data(format)),
        None => None,
    }
}

/// Rules for a time-of-day field.
#[derive(Clone, Copy, Debug)]
pub struct TimeRules {
    pub is_mandatory: bool,
    pub min: Option<ClockTime>,
    pub max: Option<ClockTime>,
}

impl Default for TimeRules {
    /// Required, from 09:00 to 17:00.
    fn default() -> (r: TimeRules)
        ensures
            r.is_mandatory,
            r.min matches Some(t) && t@ == (32400u32, 0u32),
            r.max matches Some(t) && t@ == (61200u32, 0u32),
    {
        TimeRules { is_mandatory: true, min: ClockTime::from_hms(9, 0, 0), max: ClockTime::from_hms(17, 0, 0) }
    }
}

/// What validating `subject` against `rules` reports, times shown under
/// `format`; an end before the start is taken on the next day.
pub open spec fn time_entries(subject: Option<ClockTime>, rules: TimeRules, format: Option<Seq<char>>) -> Seq<
    EntryView,
> {
    time_field_entries(
        rules.is_mandatory,
        opt_time_view(rules.min, format),
        opt_time_view(rules.max, format),
        opt_time_view(subject, format),
    )
}

impl TimeRules {
    fn rules(&self, format: Option<&str>) -> (r: DateTimeRangeRules)
        ensures
            match r.min {
                Some(v) => opt_time_view(self.min, opt_text(format)) == Some(v@) && v.timestamp_seconds_days < 86400,
                None => self.min is None,
            },
            match r.max {
                Some(v) => opt_time_view(self.max, opt_text(format)) == Some(v@) && v.timestamp_seconds_days < 86400,
                None => self.max is None,
            },
    {
        DateTimeRangeRules { min: opt_time_data(self.min, format), max: opt_time_data(self.max, format) }
    }

    fn check(self, subject: Option<ClockTime>, messages: &mut ValidateErrorCollector, format: Option<&str>)
        requires
            old(messages)@.len() == 0,
        ensures
            final(messages)@ == time_entries(subject, self, opt_text(format)),
    {
        let range = self.rules(format);
        let data = opt_time_data(subject, format);
        check_date_time_field(messages, self.is_mandatory, &range, data.as_ref(), true);
    }
}

/// A time that failed validation, with every collected failure.
#[derive(Clone, Debug, PartialEq, Default)]
pub struct TimeError(pub ValidateErrorStore);

impl ValidationCheck for TimeError {
    open spec fn store_view(&self) -> Seq<EntryView> {
        self.0@
    }

    fn validate_new(messages: ValidateErrorStore) -> (r: TimeError) {
        TimeError(messages)
    }
}

/// A validated optional time of day.
#[derive(Clone, Debug, PartialEq, Default)]
pub struct TimeValue(Option<ClockTime>);

impl View for TimeValue {
    type V = Option<ClockTime>;

    closed spec fn view(&self) -> Option<ClockTime> {
        self.0
    }
}

impl TimeValue {
    /// Validates `subject` against `rules`, times shown under `format` in
    /// messages: `Ok` exactly when no rule reports anything.
    pub fn parse_custom_with_format(
        subject: Option<ClockTime>,
        rules: TimeRules,
        format: Option<&str>,
    ) -> (r: Result<TimeValue, TimeError>)
        ensures
            r is Ok <==> time_entries(subject, rules, opt_text(format)).len() == 0,
            r matches Ok(v) ==> v@ == subject,
            r matches Err(e) ==> e.0@ == time_entries(subject, rules, opt_text(format)),
    {
        let mut messages = ValidateErrorCollector::new();
        rules.check(subject, &mut messages, format);
        match TimeError::validate_check(messages) {
            Err(e) => Err(e),
            Ok(()) => Ok(TimeValue(subject)),
        }
    }

    pub fn parse_custom(subject: Option<ClockTime>, rules: TimeRules) -> (r: Result<TimeValue, TimeError>)
        ensures
            r is Ok <==> time_entries(subject, rules, None).len() == 0,
            r matches Ok(v) ==> v@ == subject,
            r matches Err(e) ==> e.0@ == time_entries(subject, rules, None),
    {
        TimeValue::parse_custom_with_format(subject, rules, None)
    }

    /// As `parse_custom` with the default rules, 09:00 to 17:00.
    pub fn parse(subject: Option<ClockTime>) -> (r: Result<TimeValue, TimeError>)
        ensures
            r matches Ok(v) ==> v@ == subject,
            subject is None ==> r is Err,
            subject matches Some(t) ==> (r is Ok <==> 32400 <= t@.0 <= 61200 && (t@.0 == 61200
                ==> t@.1 == 0)),
    {
        TimeValue::parse_custom(subject, TimeRules::default())
    }

    pub fn parse_with_format(subject: Option<ClockTime>, format: Option<&str>) -> (r: Result<
        TimeValue,
        TimeError,
    >)
        ensures
            r matches Ok(v) ==> v@ == subject,
            subject is None ==> r is Err,
    {
        TimeValue::parse_custom_with_format(subject, TimeRules::default(), format)
    }

    pub fn as_time(&self) -> (r: Option<ClockTime>)
        ensures
            r == self@,
    {
        self.0
    }
}

} // verus!
