//! Canonical comparable date/time data and the rules on it.
use crate::base::string_rules::mandatory_entries;
use crate::common::locale::{
    locale_with, plain_locale, EntryView, ErrorCause, LocaleData, LocaleDataView, LocaleMessage,
    LocaleValue, LocaleValueView, ValidateErrorCollector, one_arg,
};
use crate::common::text::concat3;
use vstd::prelude::*;

verus! {

/// Which temporal type a `DateTimeData` came from; it picks the locale keys.
#[derive(Clone, Copy, Debug, PartialEq, Eq, Structural)]
pub enum DateTimeKind {
    Date,
    DateTime,
    DateTimeNaive,
    Time,
}

impl Default for DateTimeKind {
    fn default() -> (r: DateTimeKind)
        ensures
            r == DateTimeKind::DateTime,
    {
        DateTimeKind::DateTime
    }
}

/// Seconds in a day.
pub const SECONDS_PER_DAY: i64 = 86400;

/// One canonical form for dates, date-times and times. Only
/// `(timestamp_seconds_days, subsec_nano)` takes part in comparisons.
#[derive(Clone, Debug)]
pub struct DateTimeData {
    pub kind: DateTimeKind,
    pub date_formatted: String,
    pub timestamp_seconds_days: i64,
    pub subsec_nano: u32,
}

/// What a `DateTimeData` holds, with the formatted text as characters.
pub struct DateTimeDataView {
    pub kind: DateTimeKind,
    pub formatted: Seq<char>,
    pub timestamp_seconds_days: i64,
    pub subsec_nano: u32,
}

impl View for DateTimeData {
    type V = DateTimeDataView;

    open spec fn view(&self) -> DateTimeDataView {
        DateTimeDataView {
            kind: self.kind,
            formatted: self.date_formatted@,
            timestamp_seconds_days: self.timestamp_seconds_days,
            subsec_nano: self.subsec_nano,
        }
    }
}

/// The view of an optional value.
pub open spec fn opt_view(d: Option<DateTimeData>) -> Option<DateTimeDataView> {
    match d {
        Some(v) => Some(v@),
        None => None,
    }
}

/// The view of an optional borrowed value.
pub open spec fn ref_view(d: Option<&DateTimeData>) -> Option<DateTimeDataView> {
    match d {
        Some(v) => Some(v@),
        None => None,
    }
}

/// `a` comes strictly before `b`: by the primary count, then the nanoseconds.
pub open spec fn dt_before(a: DateTimeDataView, b: DateTimeDataView) -> bool {
    a.timestamp_seconds_days < b.timestamp_seconds_days || (a.timestamp_seconds_days
        == b.timestamp_seconds_days && a.subsec_nano < b.subsec_nano)
}

/// `a` and `b` stand for the same instant, whatever their kind and text.
pub open spec fn dt_same(a: DateTimeDataView, b: DateTimeDataView) -> bool {
    a.timestamp_seconds_days == b.timestamp_seconds_days && a.subsec_nano == b.subsec_nano
}

impl DateTimeData {
    pub fn new(
        kind: DateTimeKind,
        date_formatted: String,
        timestamp_seconds_days: i64,
        subsec_nano: u32,
    ) -> (r: DateTimeData)
        ensures
            r == (DateTimeData { kind, date_formatted, timestamp_seconds_days, subsec_nano }),
    {
        DateTimeData { kind, date_formatted, timestamp_seconds_days, subsec_nano }
    }

    /// A field-by-field copy.
    pub fn duplicate(&self) -> (r: DateTimeData)
        ensures
            r == *self,
    {
        DateTimeData {
            kind: self.kind,
            date_formatted: self.date_formatted.clone(),
            timestamp_seconds_days: self.timestamp_seconds_days,
            subsec_nano: self.subsec_nano,
        }
    }

    pub fn is_before(&self, other: &DateTimeData) -> (r: bool)
        ensures
            r == dt_before(self@, other@),
    {
        self.timestamp_seconds_days < other.timestamp_seconds_days || (self.timestamp_seconds_days
            == other.timestamp_seconds_days && self.subsec_nano < other.subsec_nano)
    }

    pub fn is_same_instant(&self, other: &DateTimeData) -> (r: bool)
        ensures
            r == dt_same(self@, other@),
    {
        self.timestamp_seconds_days == other.timestamp_seconds_days && self.subsec_nano
            == other.subsec_nano
    }

    /// The formatted text, as shown to users.
    pub fn to_display_string(&self) -> (r: String)
        ensures
            r@ == self.date_formatted@,
    {
        self.date_formatted.clone()
    }
}

impl Default for DateTimeData {
    /// A date-time at the primary count 0 with an empty text.
    fn default() -> (r: DateTimeData)
        ensures
            r@ == (DateTimeDataView {
                kind: DateTimeKind::DateTime,
                formatted: Seq::empty(),
                timestamp_seconds_days: 0,
                subsec_nano: 0,
            }),
    {
        DateTimeData {
            kind: DateTimeKind::DateTime,
            date_formatted: String::new(),
            timestamp_seconds_days: 0,
            subsec_nano: 0,
        }
    }
}

impl PartialEq for DateTimeData {
    fn eq(&self, other: &DateTimeData) -> (r: bool) {
        self.is_same_instant(other)
    }
}

impl vstd::std_specs::cmp::PartialEqSpecImpl for DateTimeData {
    open spec fn obeys_eq_spec() -> bool {
        true
    }

    open spec fn eq_spec(&self, other: &DateTimeData) -> bool {
        dt_same(self@, other@)
    }
}

/// The order of two instants: by the primary count, then the nanoseconds.
pub open spec fn dt_order(a: DateTimeDataView, b: DateTimeDataView) -> Option<core::cmp::Ordering> {
    if dt_before(a, b) {
        Some(core::cmp::Ordering::Less)
    } else if dt_same(a, b) {
        Some(core::cmp::Ordering::Equal)
    } else {
        Some(core::cmp::Ordering::Greater)
    }
}

impl PartialOrd for DateTimeData {
    fn partial_cmp(&self, other: &DateTimeData) -> (r: Option<core::cmp::Ordering>) {
        if self.is_before(other) {
            Some(core::cmp::Ordering::Less)
        } else if self.is_same_instant(other) {
            Some(core::cmp::Ordering::Equal)
        } else {
            Some(core::cmp::Ordering::Greater)
        }
    }
}

impl vstd::std_specs::cmp::PartialOrdSpecImpl for DateTimeData {
    open spec fn obeys_partial_cmp_spec() -> bool {
        true
    }

    open spec fn partial_cmp_spec(&self, other: &DateTimeData) -> Option<core::cmp::Ordering> {
        dt_order(self@, other@)
    }
}

/// Anything that has a canonical date/time form.
pub trait AsDateTimeData {
    spec fn date_time_view(&self) -> DateTimeDataView;

    fn as_date_time_data(&self) -> (r: DateTimeData)
        ensures
            r@ == self.date_time_view(),
    ;
}

/// Cause of an absent required date or time. Key `validate-cannot-be-empty`.
#[derive(Debug)]
pub struct DateTimeMandatoryLocale;

impl LocaleMessage for DateTimeMandatoryLocale {
    open spec fn locale_view(&self) -> LocaleDataView {
        plain_locale("validate-cannot-be-empty"@)
    }

    fn get_locale_data(&self) -> (r: LocaleData) {
        LocaleData::new("validate-cannot-be-empty")
    }
}

/// Whether a date or time must be present.
pub struct DateTimeMandatoryRules {
    pub is_mandatory: bool,
}

impl DateTimeMandatoryRules {
    /// Reports "Cannot be empty" when the value is required and absent.
    pub fn check(&self, messages: &mut ValidateErrorCollector, subject: Option<&DateTimeData>)
        ensures
            final(messages)@ == old(messages)@ + mandatory_entries(self.is_mandatory, subject is None),
    {
        if self.is_mandatory && subject.is_none() {
            messages.push((String::from_str("Cannot be empty"), ErrorCause::DateTimeMandatory(DateTimeMandatoryLocale)));
        } else {
            assert(old(messages)@ + mandatory_entries(self.is_mandatory, subject is None) == old(messages)@);
        }
    }
}

pub open spec fn min_key(kind: DateTimeKind) -> Seq<char> {
    match kind {
        DateTimeKind::Date => "validate-date-min"@,
        DateTimeKind::DateTime => "validate-date-time-min"@,
        DateTimeKind::DateTimeNaive => "validate-date-time-naive-min"@,
        DateTimeKind::Time => "validate-time-min"@,
    }
}

pub open spec fn max_key(kind: DateTimeKind) -> Seq<char> {
    match kind {
        DateTimeKind::Date => "validate-date-max"@,
        DateTimeKind::DateTime => "validate-date-time-max"@,
        DateTimeKind::DateTimeNaive => "validate-date-time-naive-max"@,
        DateTimeKind::Time => "validate-time-max"@,
    }
}

/// Cause of a date/time range violation, carrying the bound; the key family
/// follows the bound's kind, and the argument is its formatted text.
#[derive(Debug)]
pub enum DateTimeRangeLocale {
    MinValue(DateTimeData),
    MaxValue(DateTimeData),
}

impl LocaleMessage for DateTimeRangeLocale {
    open spec fn locale_view(&self) -> LocaleDataView {
        match self {
            DateTimeRangeLocale::MinValue(d) => locale_with(
                min_key(d.kind),
                "min"@,
                LocaleValueView::String(d.date_formatted@),
            ),
            DateTimeRangeLocale::MaxValue(d) => locale_with(
                max_key(d.kind),
                "max"@,
                LocaleValueView::String(d.date_formatted@),
            ),
        }
    }

    fn get_locale_data(&self) -> (r: LocaleData) {
        match self {
            DateTimeRangeLocale::MinValue(d) => {
                let args = one_arg("min", LocaleValue::String(d.date_formatted.clone()));
                match d.kind {
                    DateTimeKind::Date => LocaleData::new_with_vec("validate-date-min", args),
                    DateTimeKind::DateTime => LocaleData::new_with_vec("validate-date-time-min", args),
                    DateTimeKind::DateTimeNaive => LocaleData::new_with_vec("validate-date-time-naive-min", args),
                    DateTimeKind::Time => LocaleData::new_with_vec("validate-time-min", args),
                }
            },
            DateTimeRangeLocale::MaxValue(d) => {
                let args = one_arg("max", LocaleValue::String(d.date_formatted.clone()));
                match d.kind {
                    DateTimeKind::Date => LocaleData::new_with_vec("validate-date-max", args),
                    DateTimeKind::DateTime => LocaleData::new_with_vec("validate-date-time-max", args),
                    DateTimeKind::DateTimeNaive => LocaleData::new_with_vec("validate-date-time-naive-max", args),
                    DateTimeKind::Time => LocaleData::new_with_vec("validate-time-max", args),
                }
            },
        }
    }
}

pub open spec fn date_min_entry(min: DateTimeDataView) -> EntryView {
    (
        "Must be after '"@ + min.formatted + "'"@,
        locale_with(min_key(min.kind), "min"@, LocaleValueView::String(min.formatted)),
    )
}

pub open spec fn date_max_entry(max: DateTimeDataView) -> EntryView {
    (
        "Must be before '"@ + max.formatted + "'"@,
        locale_with(max_key(max.kind), "max"@, LocaleValueView::String(max.formatted)),
    )
}

/// What a date/time range rule reports: nothing for an absent subject;
/// otherwise each bound is checked on its own.
pub open spec fn date_range_entries(
    min: Option<DateTimeDataView>,
    max: Option<DateTimeDataView>,
    subject: Option<DateTimeDataView>,
) -> Seq<EntryView> {
    match subject {
        None => seq![],
        Some(s) => (if min is Some && dt_before(s, min->0) {
            seq![date_min_entry(min->0)]
        } else {
            seq![]
        }) + (if max is Some && dt_before(max->0, s) {
            seq![date_max_entry(max->0)]
        } else {
            seq![]
        }),
    }
}

/// Whether the time-of-day check moves the upper bound to the next day: it
/// lies before the lower bound.
pub open spec fn time_wraps(min: Option<DateTimeDataView>, max: Option<DateTimeDataView>) -> bool {
    min is Some && max is Some && dt_before(max->0, min->0)
}

/// The upper bound one day (86 400 s) later.
pub open spec fn shifted_max_view(hi: DateTimeDataView) -> DateTimeDataView {
    DateTimeDataView {
        kind: hi.kind,
        formatted: hi.formatted,
        timestamp_seconds_days: (hi.timestamp_seconds_days + SECONDS_PER_DAY) as i64,
        subsec_nano: hi.subsec_nano,
    }
}

/// What the time-of-day range check reports: as the plain check, except that
/// an upper bound lying before the lower one is taken one day later. The
/// comparison with that later bound is made on integers, so it holds for
/// every bound; the entry can only arise where the later bound fits in `i64`.
pub open spec fn time_range_entries(
    min: Option<DateTimeDataView>,
    max: Option<DateTimeDataView>,
    subject: Option<DateTimeDataView>,
) -> Seq<EntryView> {
    if time_wraps(min, max) {
        match subject {
            None => seq![],
            Some(s) => {
                let lo = min->0;
                let hi = max->0;
                let hi_ts = hi.timestamp_seconds_days + SECONDS_PER_DAY;
                (if dt_before(s, lo) {
                    seq![date_min_entry(lo)]
                } else {
                    seq![]
                }) + (if hi_ts < s.timestamp_seconds_days || (hi_ts == s.timestamp_seconds_days
                    && hi.subsec_nano < s.subsec_nano) {
                    seq![date_max_entry(shifted_max_view(hi))]
                } else {
                    seq![]
                })
            },
        }
    } else {
        date_range_entries(min, max, subject)
    }
}

/// Optional inclusive bounds on a date, date-time or time.
pub struct DateTimeRangeRules {
    pub min: Option<DateTimeData>,
    pub max: Option<DateTimeData>,
}

fn check_bounds(
    messages: &mut ValidateErrorCollector,
    min: Option<&DateTimeData>,
    max: Option<&DateTimeData>,
    subject: Option<&DateTimeData>,
)
    ensures
        final(messages)@ == old(messages)@ + date_range_entries(
            ref_view(min),
            ref_view(max),
            ref_view(subject),
        ),
{
    let ghost start = old(messages)@;
    match subject {
        None => {
            assert(start + seq![] == start);
        },
        Some(s) => {
            if let Some(min) = min {
                if s.is_before(min) {
                    let msg = concat3("Must be after '", min.date_formatted.as_str(), "'");
                    messages.push((msg, ErrorCause::DateTimeRange(DateTimeRangeLocale::MinValue(min.duplicate()))));
                }
            }
            let ghost mid = messages@;
            if let Some(max) = max {
                if max.is_before(s) {
                    let msg = concat3("Must be before '", max.date_formatted.as_str(), "'");
                    messages.push((msg, ErrorCause::DateTimeRange(DateTimeRangeLocale::MaxValue(max.duplicate()))));
                }
            }
            assert(messages@ == start + date_range_entries(ref_view(min), ref_view(max), Some(s@)));
        },
    }
}

impl DateTimeRangeRules {
    /// Reports a subject before `min` and a subject after `max`, each on its own.
    pub fn check(&self, messages: &mut ValidateErrorCollector, subject: Option<&DateTimeData>)
        ensures
            final(messages)@ == old(messages)@ + date_range_entries(
                opt_view(self.min),
                opt_view(self.max),
                ref_view(subject),
            ),
    {
        check_bounds(messages, self.min.as_ref(), self.max.as_ref(), subject);
    }

    /// As `check`, for times of day: when `max` lies before `min`, `max` is
    /// taken one day (86 400 s) later, so that the window wraps past midnight.
    /// Where the later bound would not fit in `i64`, no subject lies after
    /// it, so only the lower bound can report.
    pub fn check_time(&self, messages: &mut ValidateErrorCollector, subject: Option<&DateTimeData>)
        ensures
            final(messages)@ == old(messages)@ + time_range_entries(
                opt_view(self.min),
                opt_view(self.max),
                ref_view(subject),
            ),
    {
        let ghost start = old(messages)@;
        match (&self.min, &self.max) {
            (Some(lo), Some(hi)) => {
                if hi.is_before(lo) {
                    match hi.timestamp_seconds_days.checked_add(SECONDS_PER_DAY) {
                        Some(later) => {
                            let shifted = DateTimeData {
                                kind: hi.kind,
                                date_formatted: hi.date_formatted.clone(),
                                timestamp_seconds_days: later,
                                subsec_nano: hi.subsec_nano,
                            };
                            assert(shifted@ == shifted_max_view(hi@));
                            check_bounds(messages, Some(lo), Some(&shifted), subject);
                            assert(messages@ == start + time_range_entries(
                                opt_view(self.min),
                                opt_view(self.max),
                                ref_view(subject),
                            ));
                        },
                        None => {
                            check_bounds(messages, Some(lo), None, subject);
                            assert(messages@ == start + time_range_entries(
                                opt_view(self.min),
                                opt_view(self.max),
                                ref_view(subject),
                            ));
                        },
                    }
                } else {
                    check_bounds(messages, Some(lo), Some(hi), subject);
                }
            },
            _ => {
                check_bounds(messages, self.min.as_ref(), self.max.as_ref(), subject);
            },
        }
    }
}

/// What a date/time field reports: a required absent value gets the presence
/// entry alone, an optional absent value passes, a present value goes to the
/// range rule.
pub open spec fn date_field_entries(
    is_mandatory: bool,
    min: Option<DateTimeDataView>,
    max: Option<DateTimeDataView>,
    subject: Option<DateTimeDataView>,
) -> Seq<EntryView> {
    if subject is None {
        mandatory_entries(is_mandatory, true)
    } else {
        date_range_entries(min, max, subject)
    }
}

/// As `date_field_entries`, with the time-of-day range check.
pub open spec fn time_field_entries(
    is_mandatory: bool,
    min: Option<DateTimeDataView>,
    max: Option<DateTimeDataView>,
    subject: Option<DateTimeDataView>,
) -> Seq<EntryView> {
    if subject is None {
        mandatory_entries(is_mandatory, true)
    } else {
        time_range_entries(min, max, subject)
    }
}

/// The presence rule, then, when it passed, the range rule (in its
/// time-of-day form when `time_of_day`).
pub(crate) fn check_date_time_field(
    messages: &mut ValidateErrorCollector,
    is_mandatory: bool,
    range: &DateTimeRangeRules,
    subject: Option<&DateTimeData>,
    time_of_day: bool,
)
    requires
        old(messages)@.len() == 0,
    ensures
        final(messages)@ == (if time_of_day {
            time_field_entries(is_mandatory, opt_view(range.min), opt_view(range.max), ref_view(subject))
        } else {
            date_field_entries(is_mandatory, opt_view(range.min), opt_view(range.max), ref_view(subject))
        }),
{
    if !is_mandatory && subject.is_none() {
        return;
    }
    let mandatory_rule = DateTimeMandatoryRules { is_mandatory };
    mandatory_rule.check(messages, subject);
    if !messages.is_empty() {
        return;
    }
    if time_of_day {
        range.check_time(messages, subject);
    } else {
        range.check(messages, subject);
    }
}

} // verus!
