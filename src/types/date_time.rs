//! Date-times in UTC: required by default, from now to 30 days ahead.
use crate::base::date_time::{
    check_date_time_field, date_field_entries, AsDateTimeData, DateTimeData, DateTimeDataView,
    DateTimeKind, DateTimeRangeRules,
};
use crate::common::locale::{EntryView, ValidateErrorCollector, ValidateErrorStore};
use crate::common::validation_check::ValidationCheck;
use chrono::{DateTime, Utc};
use vstd::prelude::*;

verus! {

/// Whether chrono has a UTC date-time with these seconds since 1970-01-01
/// and nanoseconds.
pub uninterp spec fn timestamp_valid(secs: i64, nanos: u32) -> bool;

/// Relies on `chrono::DateTime::from_timestamp`: `Some` exactly for the
/// seconds and nanoseconds in chrono's range.
#[verifier::external_body]
fn timestamp_in_range(secs: i64, nanos: u32) -> (r: bool)
    ensures
        r == timestamp_valid(secs, nanos),
{
    DateTime::from_timestamp(secs, nanos).is_some()
}

/// The RFC 3339 text of a UTC date-time, as chrono writes it.
pub uninterp spec fn rfc3339_of(secs: i64, nanos: u32) -> Seq<char>;

/// Relies on `chrono::DateTime::<Utc>::to_rfc3339`, a function of the instant alone.
#[verifier::external_body]
fn rfc3339_text(secs: i64, nanos: u32) -> (r: String)
    requires
        timestamp_valid(secs, nanos),
    ensures
        r@ == rfc3339_of(secs, nanos),
{
    match DateTime::from_timestamp(secs, nanos) {
        Some(d) => d.to_rfc3339(),
        None => String::new(),
    }
}

/// Relies on `chrono::Utc::now`, `DateTime::timestamp` and
/// `DateTime::timestamp_subsec_nanos`: the current instant, one that chrono has.
#[verifier::external_body]
fn now_parts() -> (r: (i64, u32))
    ensures
        timestamp_valid(r.0, r.1),
{
    let now = Utc::now();
    (now.timestamp(), now.timestamp_subsec_nanos())
}

/// An instant as seconds since 1970-01-01 00:00:00 UTC and nanoseconds,
/// always one that chrono has.
#[derive(Clone, Copy, Debug, PartialEq, Eq)]
pub struct UnixTime {
    secs: i64,
    nanos: u32,
}

impl View for UnixTime {
    type V = (i64, u32);

    closed spec fn view(&self) -> (i64, u32) {
        (self.secs, self.nanos)
    }
}

/// The canonical form of a UTC date-time.
pub open spec fn utc_view(t: (i64, u32)) -> DateTimeDataView {
    DateTimeDataView {
        kind: DateTimeKind::DateTime,
        formatted: rfc3339_of(t.0, t.1),
        timestamp_seconds_days: t.0,
        subsec_nano: t.1,
    }
}

impl UnixTime {
    #[verifier::type_invariant]
    spec fn inv(&self) -> bool {
        timestamp_valid(self.secs, self.nanos)
    }

    /// The instant with these seconds and nanoseconds, if chrono has it.
    pub fn from_timestamp(secs: i64, nanos: u32) -> (r: Option<UnixTime>)
        ensures
            r is Some <==> timestamp_valid(secs, nanos),
            r matches Some(t) ==> t@ == (secs, nanos),
    {
        if timestamp_in_range(secs, nanos) {
            Some(UnixTime { secs, nanos })
        } else {
            None
        }
    }

    /// The current instant.
    pub fn now() -> (r: UnixTime) {
        let (secs, nanos) = now_parts();
        UnixTime { secs, nanos }
    }

    /// The instant `n` seconds later (earlier for negative `n`), if chrono has it.
    pub fn add_seconds(&self, n: i64) -> (r: Option<UnixTime>)
        ensures
            r matches Some(t) ==> t@ == ((self@.0 + n) as i64, self@.1),
    {
        match self.secs.checked_add(n) {
            Some(secs) => UnixTime::from_timestamp(secs, self.nanos),
            None => None,
        }
    }

    pub fn timestamp(&self) -> (r: i64)
        ensures
            r == self@.0,
    {
        self.secs
    }

    pub fn timestamp_subsec_nanos(&self) -> (r: u32)
        ensures
            r == self@.1,
    {
        self.nanos
    }

    /// The text and the canonical numbers of the instant, with the given kind.
    pub(crate) fn data_with(&self, kind: DateTimeKind, formatted: String) -> (r: DateTimeData)
        ensures
            r.kind == kind,
            r.date_formatted == formatted,
            r.timestamp_seconds_days == self@.0,
            r.subsec_nano == self@.1,
    {
        DateTimeData { kind, date_formatted: formatted, timestamp_seconds_days: self.secs, subsec_nano: self.nanos }
    }

    /// Seconds and nanoseconds, which chrono accepts.
    pub(crate) fn parts(&self) -> (r: (i64, u32))
        ensures
            r == self@,
            timestamp_valid(r.0, r.1),
    {
        proof {
            use_type_invariant(self);
        }
        (self.secs, self.nanos)
    }

    pub(crate) fn rfc3339(&self) -> (r: String)
        ensures
            r@ == rfc3339_of(self@.0, self@.1),
    {
        proof {
            use_type_invariant(self);
        }
        rfc3339_text(self.secs, self.nanos)
    }
}

impl AsDateTimeData for UnixTime {
    open spec fn date_time_view(&self) -> DateTimeDataView {
        utc_view(self@)
    }

    fn as_date_time_data(&self) -> (r: DateTimeData) {
        let text = self.rfc3339();
        self.data_with(DateTimeKind::DateTime, text)
    }
}

pub open spec fn opt_utc_view(t: Option<UnixTime>) -> Option<DateTimeDataView> {
    match t {
        Some(v) => Some(utc_view(v@)),
        None => None,
    }
}

fn opt_utc_data(t: Option<UnixTime>) -> (r: Option<DateTimeData>)
    ensures
        match r {
            Some(v) => opt_utc_view(t) == Some(v@),
            None => t is None,
        },
{
    match t {
        Some(v) => Some(v.as_date_time_data()),
        None => None,
    }
}

/// Seconds in 30 days.
pub const THIRTY_DAYS: i64 = 2592000;

/// Rules for a UTC date-time field.
#[derive(Clone, Copy, Debug)]
pub struct DateTimeRules {
    pub is_mandatory: bool,
    pub min: Option<UnixTime>,
    pub max: Option<UnixTime>,
}

impl Default for DateTimeRules {
    /// Required, from now to 30 days ahead.
    fn default() -> (r: DateTimeRules)
        ensures
            r.is_mandatory,
            r.min is Some,
            r.max matches Some(m) ==> m@ == ((r.min->0@.0 + THIRTY_DAYS) as i64, r.min->0@.1),
    {
        let now = UnixTime::now();
        DateTimeRules { is_mandatory: true, min: Some(now), max: now.add_seconds(THIRTY_DAYS) }
    }
}

/// What validating `subject` against `rules` reports.
pub open spec fn date_time_entries(subject: Option<UnixTime>, rules: DateTimeRules) -> Seq<EntryView> {
    date_field_entries(
        rules.is_mandatory,
        opt_utc_view(rules.min),
        opt_utc_view(rules.max),
        opt_utc_view(subject),
    )
}

impl DateTimeRules {
    fn rules(&self) -> (r: DateTimeRangeRules)
        ensures
            match r.min {
                Some(v) => opt_utc_view(self.min) == Some(v@),
                None => self.min is None,
            },
            match r.max {
                Some(v) => opt_utc_view(self.max) == Some(v@),
                None => self.max is None,
            },
    {
        DateTimeRangeRules { min: opt_utc_data(self.min), max: opt_utc_data(self.max) }
    }

    fn check(&self, messages: &mut ValidateErrorCollector, subject: Option<UnixTime>)
        requires
            old(messages)@.len() == 0,
        ensures
            final(messages)@ == date_time_entries(subject, *self),
    {
        let range = self.rules();
        let data = opt_utc_data(subject);
        check_date_time_field(messages, self.is_mandatory, &range, data.as_ref(), false);
    }
}

/// A date-time that failed validation, with every collected failure.
#[derive(Clone, Debug, PartialEq, Default)]
pub struct DateTimeError(pub ValidateErrorStore);

impl ValidationCheck for DateTimeError {
    open spec fn store_view(&self) -> Seq<EntryView> {
        self.0@
    }

    fn validate_new(messages: ValidateErrorStore) -> (r: DateTimeError) {
        DateTimeError(messages)
    }
}

/// A validated optional UTC date-time.
#[derive(Clone, Debug, PartialEq, Default)]
pub struct DateTimeValue(Option<UnixTime>);

impl View for DateTimeValue {
    type V = Option<UnixTime>;

    closed spec fn view(&self) -> Option<UnixTime> {
        self.0
    }
}

impl DateTimeValue {
    /// Validates `subject` against `rules`: `Ok` exactly when no rule reports anything.
    pub fn parse_custom(subject: Option<UnixTime>, rules: DateTimeRules) -> (r: Result<
        DateTimeValue,
        DateTimeError,
    >)
        ensures
            r is Ok <==> date_time_entries(subject, rules).len() == 0,
            r matches Ok(v) ==> v@ == subject,
            r matches Err(e) ==> e.0@ == date_time_entries(subject, rules),
    {
        let mut messages = ValidateErrorCollector::new();
        rules.check(&mut messages, subject);
        match DateTimeError::validate_check(messages) {
            Err(e) => Err(e),
            Ok(()) => Ok(DateTimeValue(subject)),
        }
    }

    /// As `parse_custom` with the default rules, which depend on the current time.
    pub fn parse(subject: Option<UnixTime>) -> (r: Result<DateTimeValue, DateTimeError>)
        ensures
            r matches Ok(v) ==> v@ == subject,
            subject is None ==> r is Err,
    {
        DateTimeValue::parse_custom(subject, DateTimeRules::default())
    }

    pub fn as_date_time(&self) -> (r: Option<UnixTime>)
        ensures
            r == self@,
    {
        self.0
    }
}

} // verus!
