//! Date-times as system timestamps, shown by humantime: required by default,
//! from now to 30 days ahead.
use crate::base::date_time::{
    check_date_time_field, date_field_entries, AsDateTimeData, DateTimeData, DateTimeDataView,
    DateTimeKind, DateTimeRangeRules,
};
use crate::common::locale::{EntryView, ValidateErrorCollector, ValidateErrorStore};
use crate::common::validation_check::ValidationCheck;
use std::time::{Duration, SystemTime, UNIX_EPOCH};
use vstd::prelude::*;

verus! {

/// The first second that humantime cannot write (year 10000).
pub const EPOCH_SECONDS_LIMIT: u64 = 253402300800;

/// The seconds and nanoseconds after 1970-01-01 that humantime can write.
pub open spec fn epoch_parts_valid(secs: u64, nanos: u32) -> bool {
    secs < EPOCH_SECONDS_LIMIT && nanos < 1_000_000_000
}

/// The RFC 3339 text of a timestamp, as humantime writes it (UTC, `Z`).
pub uninterp spec fn humantime_text_of(secs: u64, nanos: u32) -> Seq<char>;

/// Relies on `humantime::format_rfc3339`, a function of the instant alone; it
/// reports an error from the year 10000 on, which `requires` leaves out.
#[verifier::external_body]
fn humantime_text(secs: u64, nanos: u32) -> (r: String)
    requires
        epoch_parts_valid(secs, nanos),
    ensures
        r@ == humantime_text_of(secs, nanos),
{
    humantime::format_rfc3339(UNIX_EPOCH + Duration::new(secs, nanos)).to_string()
}

/// Relies on `std::time::SystemTime::now` and `duration_since(UNIX_EPOCH)`:
/// the current time after the epoch (zero before it); nanoseconds stay below
/// one second.
#[verifier::external_body]
fn system_now_parts() -> (r: (u64, u32))
    ensures
        r.1 < 1_000_000_000,
{
    let d = SystemTime::now().duration_since(UNIX_EPOCH).unwrap_or_default();
    (d.as_secs(), d.subsec_nanos())
}

/// A system timestamp as seconds since 1970-01-01 00:00:00 UTC and
/// nanoseconds, always one that humantime can write.
#[derive(Clone, Copy, Debug, PartialEq, Eq)]
pub struct EpochTime {
    secs: u64,
    nanos: u32,
}

impl View for EpochTime {
    type V = (u64, u32);

    closed spec fn view(&self) -> (u64, u32) {
        (self.secs, self.nanos)
    }
}

/// The canonical form of a system timestamp.
pub open spec fn epoch_view(t: (u64, u32)) -> DateTimeDataView {
    DateTimeDataView {
        kind: DateTimeKind::DateTime,
        formatted: humantime_text_of(t.0, t.1),
        timestamp_seconds_days: t.0 as i64,
        subsec_nano: t.1,
    }
}

impl EpochTime {
    #[verifier::type_invariant]
    spec fn inv(&self) -> bool {
        epoch_parts_valid(self.secs, self.nanos)
    }

    /// The timestamp with these seconds and nanoseconds, if humantime can write it.
    pub fn from_parts(secs: u64, nanos: u32) -> (r: Option<EpochTime>)
        ensures
            r is Some <==> epoch_parts_valid(secs, nanos),
            r matches Some(t) ==> t@ == (secs, nanos),
    {
        if secs < EPOCH_SECONDS_LIMIT && nanos < 1_000_000_000 {
            Some(EpochTime { secs, nanos })
        } else {
            None
        }
    }

    /// The current time, if humantime can write it.
    pub fn now() -> (r: Option<EpochTime>) {
        let (secs, nanos) = system_now_parts();
        EpochTime::from_parts(secs, nanos)
    }

    /// The timestamp `n` seconds later, if humantime can write it.
    pub fn add_seconds(&self, n: u64) -> (r: Option<EpochTime>)
        ensures
            r matches Some(t) ==> t@ == ((self@.0 + n) as u64, self@.1),
    {
        match self.secs.checked_add(n) {
            Some(secs) => EpochTime::from_parts(secs, self.nanos),
            None => None,
        }
    }

    pub fn timestamp(&self) -> (r: u64)
        ensures
            r == self@.0,
    {
        self.secs
    }

    pub fn timestamp_subsec_nanos(&self) -> (r: u32)
        ensures
            r == self@.1,
    {
        self.nanos
    }

    pub(crate) fn text(&self) -> (r: String)
        ensures
            r@ == humantime_text_of(self@.0, self@.1),
    {
        proof {
            use_type_invariant(self);
        }
        humantime_text(self.secs, self.nanos)
    }
}

impl AsDateTimeData for EpochTime {
    open spec fn date_time_view(&self) -> DateTimeDataView {
        epoch_view(self@)
    }

    fn as_date_time_data(&self) -> (r: DateTimeData) {
        proof {
            use_type_invariant(self);
        }
        DateTimeData {
            kind: DateTimeKind::DateTime,
            date_formatted: self.text(),
            timestamp_seconds_days: self.secs as i64,
            subsec_nano: self.nanos,
        }
    }
}

pub open spec fn opt_epoch_view(t: Option<EpochTime>) -> Option<DateTimeDataView> {
    match t {
        Some(v) => Some(epoch_view(v@)),
        None => None,
    }
}

fn opt_epoch_data(t: Option<EpochTime>) -> (r: Option<DateTimeData>)
    ensures
        match r {
            Some(v) => opt_epoch_view(t) == Some(v@),
            None => t is None,
        },
{
    match t {
        Some(v) => Some(v.as_date_time_data()),
        None => None,
    }
}

/// Seconds in 30 days.
pub const THIRTY_DAYS_SECONDS: u64 = 2592000;

/// Rules for a timestamp field.
#[derive(Clone, Copy, Debug)]
pub struct DateTimeRules {
    pub is_mandatory: bool,
    pub min: Option<EpochTime>,
    pub max: Option<EpochTime>,
}

impl Default for DateTimeRules {
    /// Required, from now to 30 days ahead.
    fn default() -> (r: DateTimeRules)
        ensures
            r.is_mandatory,
            r.max is Some ==> r.min is Some,
            r.max matches Some(m) ==> m@ == ((r.min->0@.0 + THIRTY_DAYS_SECONDS) as u64, r.min->0@.1),
    {
        let now = EpochTime::now();
        let max = match &now {
            Some(t) => t.add_seconds(THIRTY_DAYS_SECONDS),
            None => None,
        };
        DateTimeRules { is_mandatory: true, min: now, max }
    }
}

/// What validating `subject` against `rules` reports.
pub open spec fn date_time_entries(subject: Option<EpochTime>, rules: DateTimeRules) -> Seq<EntryView> {
    date_field_entries(
        rules.is_mandatory,
        opt_epoch_view(rules.min),
        opt_epoch_view(rules.max),
        opt_epoch_view(subject),
    )
}

impl DateTimeRules {
    fn rules(&self) -> (r: DateTimeRangeRules)
        ensures
            match r.min {
                Some(v) => opt_epoch_view(self.min) == Some(v@),
                None => self.min is None,
            },
            match r.max {
                Some(v) => opt_epoch_view(self.max) == Some(v@),
                None => self.max is None,
            },
    {
        DateTimeRangeRules { min: opt_epoch_data(self.min), max: opt_epoch_data(self.max) }
    }

    fn check(&self, messages: &mut ValidateErrorCollector, subject: Option<EpochTime>)
        requires
            old(messages)@.len() == 0,
        ensures
            final(messages)@ == date_time_entries(subject, *self),
    {
        let range = self.rules();
        let data = opt_epoch_data(subject);
        check_date_time_field(messages, self.is_mandatory, &range, data.as_ref(), false);
    }
}

/// A timestamp that failed validation, with every collected failure.
#[derive(Clone, Debug, PartialEq, Default)]
pub struct DateTimeError(pub ValidateErrorStore);

impl ValidationCheck for DateTimeError {
    open spec fn store_view(&self) -> Seq<EntryView> {
        self.0@
    }

    fn validate_new(messages: ValidateErrorStore) -> (r: DateTimeError) {
        DateTimeError(messages)
    }
}

/// A validated optional timestamp.
#[derive(Clone, Debug, PartialEq, Default)]
pub struct DateTimeValue(Option<EpochTime>);

impl View for DateTimeValue {
    type V = Option<EpochTime>;

    closed spec fn view(&self) -> Option<EpochTime> {
        self.0
    }
}

impl DateTimeValue {
    /// Validates `subject` against `rules`: `Ok` exactly when no rule reports anything.
    pub fn parse_custom(subject: Option<EpochTime>, rules: DateTimeRules) -> (r: Result<
        DateTimeValue,
        DateTimeError,
    >)
        ensures
            r is Ok <==> date_time_entries(subject, rules).len() == 0,
            r matches Ok(v) ==> v@ == subject,
            r matches Err(e) ==> e.0@ == date_time_entries(subject, rules),
    {
        let mut messages = ValidateErrorCollector::new();
        rules.check(&mut messages, subject);
        match DateTimeError::validate_check(messages) {
            Err(e) => Err(e),
            Ok(()) => Ok(DateTimeValue(subject)),
        }
    }

    /// As `parse_custom` with the default rules, which depend on the current time.
    pub fn parse(subject: Option<EpochTime>) -> (r: Result<DateTimeValue, DateTimeError>)
        ensures
            r matches Ok(v) ==> v@ == subject,
            subject is None ==> r is Err,
    {
        DateTimeValue::parse_custom(subject, DateTimeRules::default())
    }

    pub fn as_timestamp(&self) -> (r: Option<EpochTime>)
        ensures
            r == self@,
    {
        self.0
    }
}

} // verus!
