//! Date-times without a time zone, read as UTC: required by default, from now
//! to 30 days ahead.
use crate::base::date_time::{
    check_date_time_field, date_field_entries, DateTimeData, DateTimeDataView, DateTimeKind,
    DateTimeRangeRules,
};
use crate::base::string_rules::opt_text;
use crate::common::locale::{EntryView, ValidateErrorCollector, ValidateErrorStore};
use crate::common::validation_check::ValidationCheck;
use crate::types::date_time::{timestamp_valid, UnixTime, THIRTY_DAYS};
use chrono::DateTime;
use std::fmt::Write;
use vstd::prelude::*;

verus! {

/// The text of a date-time read as UTC, as chrono displays it
/// (`%Y-%m-%d %H:%M:%S%.f UTC`).
pub uninterp spec fn naive_text_of(secs: i64, nanos: u32) -> Seq<char>;

/// Relies on `Display` of `chrono::DateTime<Utc>`, a function of the instant alone.
#[verifier::external_body]
fn naive_text(secs: i64, nanos: u32) -> (r: String)
    requires
        timestamp_valid(secs, nanos),
    ensures
        r@ == naive_text_of(secs, nanos),
{
    match DateTime::from_timestamp(secs, nanos) {
        Some(d) => d.to_string(),
        None => String::new(),
    }
}

/// The text of a date-time without zone under a strftime-style format;
/// `None` when chrono cannot render that format.
pub uninterp spec fn naive_format_of(secs: i64, nanos: u32, format: Seq<char>) -> Option<Seq<char>>;

/// Relies on `chrono::NaiveDateTime::format`, rendered through `Display`,
/// which reports an error for a format it cannot render.
#[verifier::external_body]
fn naive_format(secs: i64, nanos: u32, format: &str) -> (r: Option<String>)
    requires
        timestamp_valid(secs, nanos),
    ensures
        match r {
            Some(t) => naive_format_of(secs, nanos, format@) == Some(t@),
            None => naive_format_of(secs, nanos, format@) is None,
        },
{
    let mut out = String::new();
    match DateTime::from_timestamp(secs, nanos) {
        Some(d) => match write!(out, "{}", d.naive_utc().format(format)) {
            Ok(()) => Some(out),
            Err(_) => None,
        },
        None => None,
    }
}

/// The text that a date-time without zone shows under an optional format.
pub open spec fn naive_display(secs: i64, nanos: u32, format: Option<Seq<char>>) -> Seq<char> {
    match format {
        None => naive_text_of(secs, nanos),
        Some(f) => match naive_format_of(secs, nanos, f) {
            Some(t) => t,
            None => naive_text_of(secs, nanos),
        },
    }
}

/// The canonical form of a date-time without zone.
pub open spec fn naive_view(t: (i64, u32), format: Option<Seq<char>>) -> DateTimeDataView {
    DateTimeDataView {
        kind: DateTimeKind::DateTimeNaive,
        formatted: naive_display(t.0, t.1, format),
        timestamp_seconds_days: t.0,
        subsec_nano: t.1,
    }
}

pub open spec fn opt_naive_view(t: Option<UnixTime>, format: Option<Seq<char>>) -> Option<
    DateTimeDataView,
> {
    match t {
        Some(v) => Some(naive_view(v@, format)),
        None => None,
    }
}

/// The canonical form of `t` read as a date-time without zone.
pub fn naive_date_time_data(t: &UnixTime, format: Option<&str>) -> (r: DateTimeData)
    ensures
        r@ == naive_view(t@, opt_text(format)),
{
    let (secs, nanos) = t.parts();
    let formatted = match format {
        None => naive_text(secs, nanos),
        Some(f) => match naive_format(secs, nanos, f) {
            Some(s) => s,
            None => naive_text(secs, nanos),
        },
    };
    t.data_with(DateTimeKind::DateTimeNaive, formatted)
}

fn opt_naive_data(t: Option<UnixTime>, format: Option<&str>) -> (r: Option<DateTimeData>)
    ensures
        match r {
            Some(v) => opt_naive_view(t, opt_text(format)) == Some(v@),
            None => t is None,
        },
{
    match t {
        Some(v) => Some(naive_date_time_data(&v, format)),
        None => None,
    }
}

/// Rules for a date-time field without zone.
#[derive(Clone, Copy, Debug)]
pub struct NaiveDateTimeRules {
    pub is_mandatory: bool,
    pub min: Option<UnixTime>,
    pub max: Option<UnixTime>,
}

impl Default for NaiveDateTimeRules {
    /// Required, from now (UTC) to 30 days ahead.
    fn default() -> (r: NaiveDateTimeRules)
        ensures
            r.is_mandatory,
            r.min is Some,
            r.max matches Some(m) ==> m@ == ((r.min->0@.0 + THIRTY_DAYS) as i64, r.min->0@.1),
    {
        let now = UnixTime::now();
        NaiveDateTimeRules { is_mandatory: true, min: Some(now), max: now.add_seconds(THIRTY_DAYS) }
    }
}

/// What validating `subject` against `rules` reports, shown under `format`.
pub open spec fn naive_date_time_entries(
    subject: Option<UnixTime>,
    rules: NaiveDateTimeRules,
    format: Option<Seq<char>>,
) -> Seq<EntryView> {
    date_field_entries(
        rules.is_mandatory,
        opt_naive_view(rules.min, format),
        opt_naive_view(rules.max, format),
        opt_naive_view(subject, format),
    )
}

impl NaiveDateTimeRules {
    fn rules(&self, format: Option<&str>) -> (r: DateTimeRangeRules)
        ensures
            match r.min {
                Some(v) => opt_naive_view(self.min, opt_text(format)) == Some(v@),
                None => self.min is None,
            },
            match r.max {
                Some(v) => opt_naive_view(self.max, opt_text(format)) == Some(v@),
                None => self.max is None,
            },
    {
        DateTimeRangeRules { min: opt_naive_data(self.min, format), max: opt_naive_data(self.max, format) }
    }

    fn check(self, subject: Option<UnixTime>, messages: &mut ValidateErrorCollector, format: Option<&str>)
        requires
            old(messages)@.len() == 0,
        ensures
            final(messages)@ == naive_date_time_entries(subject, self, opt_text(format)),
    {
        let range = self.rules(format);
        let data = opt_naive_data(subject, format);
        check_date_time_field(messages, self.is_mandatory, &range, data.as_ref(), false);
    }
}

/// A date-time without zone that failed validation, with every collected failure.
#[derive(Clone, Debug, PartialEq, Default)]
pub struct NaiveDateTimeError(pub ValidateErrorStore);

impl ValidationCheck for NaiveDateTimeError {
    open spec fn store_view(&self) -> Seq<EntryView> {
        self.0@
    }

    fn validate_new(messages: ValidateErrorStore) -> (r: NaiveDateTimeError) {
        NaiveDateTimeError(messages)
    }
}

/// A validated optional date-time without zone.
#[derive(Clone, Debug, PartialEq, Default)]
pub struct NaiveDateTimeValue(Option<UnixTime>);

impl View for NaiveDateTimeValue {
    type V = Option<UnixTime>;

    closed spec fn view(&self) -> Option<UnixTime> {
        self.0
    }
}

impl NaiveDateTimeValue {
    /// Validates `subject` against `rules`, shown under `format` in messages:
    /// `Ok` exactly when no rule reports anything.
    pub fn parse_custom_with_format(
        subject: Option<UnixTime>,
        rules: NaiveDateTimeRules,
        format: Option<&str>,
    ) -> (r: Result<NaiveDateTimeValue, NaiveDateTimeError>)
        ensures
            r is Ok <==> naive_date_time_entries(subject, rules, opt_text(format)).len() == 0,
            r matches Ok(v) ==> v@ == subject,
            r matches Err(e) ==> e.0@ == naive_date_time_entries(subject, rules, opt_text(format)),
    {
        let mut messages = ValidateErrorCollector::new();
        rules.check(subject, &mut messages, format);
        match NaiveDateTimeError::validate_check(messages) {
            Err(e) => Err(e),
            Ok(()) => Ok(NaiveDateTimeValue(subject)),
        }
    }

    pub fn parse_custom(subject: Option<UnixTime>, rules: NaiveDateTimeRules) -> (r: Result<
        NaiveDateTimeValue,
        NaiveDateTimeError,
    >)
        ensures
            r is Ok <==> naive_date_time_entries(subject, rules, None).len() == 0,
            r matches Ok(v) ==> v@ == subject,
            r matches Err(e) ==> e.0@ == naive_date_time_entries(subject, rules, None),
    {
        NaiveDateTimeValue::parse_custom_with_format(subject, rules, None)
    }

    /// As `parse_custom` with the default rules, which depend on the current time.
    pub fn parse(subject: Option<UnixTime>) -> (r: Result<NaiveDateTimeValue, NaiveDateTimeError>)
        ensures
            r matches Ok(v) ==> v@ == subject,
            subject is None ==> r is Err,
    {
        NaiveDateTimeValue::parse_custom(subject, NaiveDateTimeRules::default())
    }

    pub fn parse_with_format(subject: Option<UnixTime>, format: Option<&str>) -> (r: Result<
        NaiveDateTimeValue,
        NaiveDateTimeError,
    >)
        ensures
            r matches Ok(v) ==> v@ == subject,
            subject is None ==> r is Err,
    {
        NaiveDateTimeValue::parse_custom_with_format(subject, NaiveDateTimeRules::default(), format)
    }

    pub fn as_naive_date_time(&self) -> (r: Option<UnixTime>)
        ensures
            r == self@,
    {
        self.0
    }
}

} // verus!
