//! Calendar dates: required by default, from today to 30 days ahead.
use crate::base::date_time::{
    check_date_time_field, date_field_entries, AsDateTimeData, DateTimeData, DateTimeDataView,
    DateTimeKind, DateTimeRangeRules,
};
use crate::base::string_rules::opt_text;
use crate::common::locale::{EntryView, ValidateErrorCollector, ValidateErrorStore};
use crate::common::validation_check::ValidationCheck;
use chrono::{Datelike, NaiveDate, Utc};
use std::fmt::Write;
use vstd::prelude::*;

verus! {

/// Whether chrono has a date with this day number (0001-01-01 is day 1).
pub uninterp spec fn day_number_valid(days: i32) -> bool;

/// Relies on `chrono::NaiveDate::from_num_days_from_ce_opt`: `Some` exactly
/// for the day numbers in chrono's range.
#[verifier::external_body]
fn day_number_in_range(days: i32) -> (r: bool)
    ensures
        r == day_number_valid(days),
{
    NaiveDate::from_num_days_from_ce_opt(days).is_some()
}

/// The day number of a year, month and day; `None` when chrono has no such date.
pub uninterp spec fn ymd_day_number(year: i32, month: u32, day: u32) -> Option<i32>;

/// Relies on `chrono::NaiveDate::from_ymd_opt` and `Datelike::num_days_from_ce`.
#[verifier::external_body]
fn day_number_of_ymd(year: i32, month: u32, day: u32) -> (r: Option<i32>)
    ensures
        r == ymd_day_number(year, month, day),
{
    match NaiveDate::from_ymd_opt(year, month, day) {
        Some(d) => Some(d.num_days_from_ce()),
        None => None,
    }
}

/// The text of a date as chrono displays it (`%Y-%m-%d`).
pub uninterp spec fn date_text_of(days: i32) -> Seq<char>;

/// Relies on `Display` of `chrono::NaiveDate`, a function of the date alone.
#[verifier::external_body]
fn date_text(days: i32) -> (r: String)
    requires
        day_number_valid(days),
    ensures
        r@ == date_text_of(days),
{
    match NaiveDate::from_num_days_from_ce_opt(days) {
        Some(d) => d.to_string(),
        None => String::new(),
    }
}

/// The text of a date under a strftime-style format; `None` when chrono
/// cannot render that format.
pub uninterp spec fn date_format_of(days: i32, format: Seq<char>) -> Option<Seq<char>>;

/// Relies on `chrono::NaiveDate::format`, rendered through `Display`, which
/// reports an error for a format it cannot render.
#[verifier::external_body]
fn date_format(days: i32, format: &str) -> (r: Option<String>)
    requires
        day_number_valid(days),
    ensures
        match r {
            Some(t) => date_format_of(days, format@) == Some(t@),
            None => date_format_of(days, format@) is None,
        },
{
    let mut out = String::new();
    match NaiveDate::from_num_days_from_ce_opt(days) {
        Some(d) => match write!(out, "{}", d.format(format)) {
            Ok(()) => Some(out),
            Err(_) => None,
        },
        None => None,
    }
}

/// Relies on `chrono::Utc::now`, its UTC date and `Datelike::num_days_from_ce`:
/// today's day number, a date that chrono has.
#[verifier::external_body]
fn today_day_number() -> (r: i32)
    ensures
        day_number_valid(r),
{
    Utc::now().date_naive().num_days_from_ce()
}

/// The text that a date shows under an optional format: the default text
/// when there is no format or chrono cannot render it.
pub open spec fn date_display(days: i32, format: Option<Seq<char>>) -> Seq<char> {
    match format {
        None => date_text_of(days),
        Some(f) => match date_format_of(days, f) {
            Some(t) => t,
            None => date_text_of(days),
        },
    }
}

/// The canonical form of a date: its day number, no sub-second part.
pub open spec fn date_view(days: i32, format: Option<Seq<char>>) -> DateTimeDataView {
    DateTimeDataView {
        kind: DateTimeKind::Date,
        formatted: date_display(days, format),
        timestamp_seconds_days: days as i64,
        subsec_nano: 0,
    }
}

/// A date of the proleptic Gregorian calendar, as its day number
/// (0001-01-01 is day 1), always one that chrono has.
#[derive(Clone, Copy, Debug, PartialEq, Eq)]
pub struct CalendarDate {
    days: i32,
}

impl View for CalendarDate {
    type V = i32;

    closed spec fn view(&self) -> i32 {
        self.days
    }
}

impl CalendarDate {
    #[verifier::type_invariant]
    spec fn inv(&self) -> bool {
        day_number_valid(self.days)
    }

    /// The date with the given day number, if chrono has it.
    pub fn from_num_days_from_ce(days: i32) -> (r: Option<CalendarDate>)
        ensures
            r is Some <==> day_number_valid(days),
            r matches Some(d) ==> d@ == days,
    {
        if day_number_in_range(days) {
            Some(CalendarDate { days })
        } else {
            None
        }
    }

    /// The date with the given year, month and day, if chrono has it.
    pub fn from_ymd(year: i32, month: u32, day: u32) -> (r: Option<CalendarDate>)
        ensures
            r is Some <==> (ymd_day_number(year, month, day) matches Some(n) && day_number_valid(n)),
            r matches Some(d) ==> ymd_day_number(year, month, day) == Some(d@),
    {
        match day_number_of_ymd(year, month, day) {
            Some(n) => CalendarDate::from_num_days_from_ce(n),
            None => None,
        }
    }

    /// Today's date in UTC.
    pub fn today() -> (r: CalendarDate) {
        CalendarDate { days: today_day_number() }
    }

    /// The date `n` days later (earlier for negative `n`), if chrono has it.
    pub fn add_days(&self, n: i32) -> (r: Option<CalendarDate>)
        ensures
            r matches Some(d) ==> d@ == self@ + n,
            (i32::MIN <= self@ + n <= i32::MAX && day_number_valid((self@ + n) as i32)) ==> r is Some,
    {
        match self.days.checked_add(n) {
            Some(days) => CalendarDate::from_num_days_from_ce(days),
            None => None,
        }
    }

    pub fn num_days_from_ce(&self) -> (r: i32)
        ensures
            r == self@,
    {
        self.days
    }

    /// The canonical form, shown under `format` when one is given.
    pub fn to_date_time_data(&self, format: Option<&str>) -> (r: DateTimeData)
        ensures
            r@ == date_view(self@, opt_text(format)),
    {
        proof {
            use_type_invariant(self);
        }
        let formatted = match format {
            None => date_text(self.days),
            Some(f) => match date_format(self.days, f) {
                Some(t) => t,
                None => date_text(self.days),
            },
        };
        DateTimeData {
            kind: DateTimeKind::Date,
            date_formatted: formatted,
            timestamp_seconds_days: self.days as i64,
            subsec_nano: 0,
        }
    }
}

impl AsDateTimeData for CalendarDate {
    open spec fn date_time_view(&self) -> DateTimeDataView {
        date_view(self@, None)
    }

    fn as_date_time_data(&self) -> (r: DateTimeData) {
        self.to_date_time_data(None)
    }
}

/// The canonical form of an optional date.
pub open spec fn opt_date_view(d: Option<CalendarDate>, format: Option<Seq<char>>) -> Option<
    DateTimeDataView,
> {
    match d {
        Some(v) => Some(date_view(v@, format)),
        None => None,
    }
}

fn opt_date_data(d: Option<CalendarDate>, format: Option<&str>) -> (r: Option<DateTimeData>)
    ensures
        match r {
            Some(v) => opt_date_view(d, opt_text(format)) == Some(v@),
            None => d is None,
        },
{
    match d {
        Some(v) => Some(v.to_date_time_data(format)),
        None => None,
    }
}

/// Rules for a date field.
#[derive(Clone, Copy, Debug)]
pub struct DateRules {
    pub is_mandatory: bool,
    pub min: Option<CalendarDate>,
    pub max: Option<CalendarDate>,
}

impl Default for DateRules {
    /// Required, from today (UTC) to 30 days ahead.
    fn default() -> (r: DateRules)
        ensures
            r.is_mandatory,
            r.min is Some,
            r.max matches Some(m) ==> m@ == r.min->0@ + 30,
    {
        let today = CalendarDate::today();
        DateRules { is_mandatory: true, min: Some(today), max: today.add_days(30) }
    }
}

/// What validating `subject` against `rules` reports, dates shown under `format`.
pub open spec fn date_entries(
    subject: Option<CalendarDate>,
    rules: DateRules,
    format: Option<Seq<char>>,
) -> Seq<EntryView> {
    date_field_entries(
        rules.is_mandatory,
        opt_date_view(rules.min, format),
        opt_date_view(rules.max, format),
        opt_date_view(subject, format),
    )
}

impl DateRules {
    fn rules(&self, format: Option<&str>) -> (r: DateTimeRangeRules)
        ensures
            match r.min {
                Some(v) => opt_date_view(self.min, opt_text(format)) == Some(v@),
                None => self.min is None,
            },
            match r.max {
                Some(v) => opt_date_view(self.max, opt_text(format)) == Some(v@),
                None => self.max is None,
            },
    {
        DateTimeRangeRules { min: opt_date_data(self.min, format), max: opt_date_data(self.max, format) }
    }

    fn check(
        self,
        subject: Option<CalendarDate>,
        messages: &mut ValidateErrorCollector,
        format: Option<&str>,
    )
        requires
            old(messages)@.len() == 0,
        ensures
            final(messages)@ == date_entries(subject, self, opt_text(format)),
    {
        let range = self.rules(format);
        let data = opt_date_data(subject, format);
        check_date_time_field(messages, self.is_mandatory, &range, data.as_ref(), false);
    }
}

/// A date that failed validation, with every collected failure.
#[derive(Clone, Debug, PartialEq, Default)]
pub struct DateError(pub ValidateErrorStore);

impl ValidationCheck for DateError {
    open spec fn store_view(&self) -> Seq<EntryView> {
        self.0@
    }

    fn validate_new(messages: ValidateErrorStore) -> (r: DateError) {
        DateError(messages)
    }
}

/// A validated optional date.
#[derive(Clone, Debug, PartialEq, Default)]
pub struct DateValue(Option<CalendarDate>);

impl View for DateValue {
    type V = Option<CalendarDate>;

    closed spec fn view(&self) -> Option<CalendarDate> {
        self.0
    }
}

impl DateValue {
    /// Validates `subject` against `rules`, dates shown under `format` in
    /// messages: `Ok` exactly when no rule reports anything.
    pub fn parse_custom_with_format(
        subject: Option<CalendarDate>,
        rules: DateRules,
        format: Option<&str>,
    ) -> (r: Result<DateValue, DateError>)
        ensures
            r is Ok <==> date_entries(subject, rules, opt_text(format)).len() == 0,
            r matches Ok(v) ==> v@ == subject,
            r matches Err(e) ==> e.0@ == date_entries(subject, rules, opt_text(format)),
    {
        let mut messages = ValidateErrorCollector::new();
        rules.check(subject, &mut messages, format);
        match DateError::validate_check(messages) {
            Err(e) => Err(e),
            Ok(()) => Ok(DateValue(subject)),
        }
    }

    pub fn parse_custom(subject: Option<CalendarDate>, rules: DateRules) -> (r: Result<
        DateValue,
        DateError,
    >)
        ensures
            r is Ok <==> date_entries(subject, rules, None).len() == 0,
            r matches Ok(v) ==> v@ == subject,
            r matches Err(e) ==> e.0@ == date_entries(subject, rules, None),
    {
        DateValue::parse_custom_with_format(subject, rules, None)
    }

    /// As `parse_custom` with the default rules, which depend on today's date.
    pub fn parse(subject: Option<CalendarDate>) -> (r: Result<DateValue, DateError>)
        ensures
            r matches Ok(v) ==> v@ == subject,
            subject is None ==> r is Err,
    {
        DateValue::parse_custom(subject, DateRules::default())
    }

    pub fn parse_with_format(subject: Option<CalendarDate>, format: Option<&str>) -> (r: Result<
        DateValue,
        DateError,
    >)
        ensures
            r matches Ok(v) ==> v@ == subject,
            subject is None ==> r is Err,
    {
        DateValue::parse_custom_with_format(subject, DateRules::default(), format)
    }

    pub fn as_naive_date(&self) -> (r: Option<CalendarDate>)
        ensures
            r == self@,
    {
        self.0
    }
}

} // verus!
