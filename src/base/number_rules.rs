//! Rules on numbers: presence and an optional closed range.
use crate::base::string_rules::mandatory_entries;
use crate::common::locale::{
    locale_with, plain_locale, EntryView, ErrorCause, LocaleData, LocaleDataView, LocaleMessage,
    LocaleValue, LocaleValueView, ValidateErrorCollector, one_arg,
};
use crate::common::text::{concat2, int_decimal, isize_text, nat_decimal, usize_text};
use vstd::prelude::*;

verus! {

/// Cause of an absent required number. Key `validate-cannot-be-empty`.
#[derive(Debug)]
pub struct NumberMandatoryLocale;

impl LocaleMessage for NumberMandatoryLocale {
    open spec fn locale_view(&self) -> LocaleDataView {
        plain_locale("validate-cannot-be-empty"@)
    }

    fn get_locale_data(&self) -> (r: LocaleData) {
        LocaleData::new("validate-cannot-be-empty")
    }
}

/// Whether a number must be present.
pub struct NumberMandatoryRules {
    pub is_mandatory: bool,
}

impl NumberMandatoryRules {
    /// Reports "Cannot be empty" when the number is required and absent.
    pub fn check<T>(&self, messages: &mut ValidateErrorCollector, subject: Option<T>)
        ensures
            final(messages)@ == old(messages)@ + mandatory_entries(self.is_mandatory, subject is None),
    {
        if self.is_mandatory && subject.is_none() {
            messages.push((String::from_str("Cannot be empty"), ErrorCause::NumberMandatory(NumberMandatoryLocale)));
        } else {
            assert(old(messages)@ + mandatory_entries(self.is_mandatory, subject is None) == old(messages)@);
        }
    }
}

/// A number that a range rule can compare, print and hand to a renderer.
pub trait RangeValue: Sized {
    /// The mathematical value, which orders the type.
    spec fn spec_int(&self) -> int;

    /// The decimal text of the value.
    spec fn spec_text(&self) -> Seq<char>;

    /// The value as a locale argument.
    spec fn spec_locale_value(&self) -> LocaleValueView;

    fn less_than(&self, other: &Self) -> (r: bool)
        ensures
            r == (self.spec_int() < other.spec_int()),
    ;

    fn display(&self) -> (r: String)
        ensures
            r@ == self.spec_text(),
    ;

    fn to_locale_value(&self) -> (r: LocaleValue)
        ensures
            r@ == self.spec_locale_value(),
    ;
}

impl RangeValue for usize {
    open spec fn spec_int(&self) -> int {
        *self as int
    }

    open spec fn spec_text(&self) -> Seq<char> {
        nat_decimal(*self as nat)
    }

    open spec fn spec_locale_value(&self) -> LocaleValueView {
        LocaleValueView::Uint(*self)
    }

    fn less_than(&self, other: &usize) -> (r: bool) {
        *self < *other
    }

    fn display(&self) -> (r: String) {
        usize_text(*self)
    }

    fn to_locale_value(&self) -> (r: LocaleValue) {
        LocaleValue::Uint(*self)
    }
}

impl RangeValue for isize {
    open spec fn spec_int(&self) -> int {
        *self as int
    }

    open spec fn spec_text(&self) -> Seq<char> {
        int_decimal(*self as int)
    }

    open spec fn spec_locale_value(&self) -> LocaleValueView {
        LocaleValueView::Int(*self)
    }

    fn less_than(&self, other: &isize) -> (r: bool) {
        *self < *other
    }

    fn display(&self) -> (r: String) {
        isize_text(*self)
    }

    fn to_locale_value(&self) -> (r: LocaleValue) {
        LocaleValue::Int(*self)
    }
}

/// Cause of a range violation, carrying the bound. Keys
/// `validate-number-min-value` (argument `min`) and `validate-number-max-value`
/// (argument `max`).
#[derive(Debug)]
pub enum NumberRangeLocale {
    MinValue(LocaleValue),
    MaxValue(LocaleValue),
}

impl LocaleMessage for NumberRangeLocale {
    open spec fn locale_view(&self) -> LocaleDataView {
        match self {
            NumberRangeLocale::MinValue(v) => locale_with("validate-number-min-value"@, "min"@, v@),
            NumberRangeLocale::MaxValue(v) => locale_with("validate-number-max-value"@, "max"@, v@),
        }
    }

    fn get_locale_data(&self) -> (r: LocaleData) {
        match self {
            NumberRangeLocale::MinValue(v) => {
                let args = one_arg("min", v.duplicate());
                LocaleData::new_with_vec("validate-number-min-value", args)
            },
            NumberRangeLocale::MaxValue(v) => {
                let args = one_arg("max", v.duplicate());
                LocaleData::new_with_vec("validate-number-max-value", args)
            },
        }
    }
}

pub open spec fn min_value_entry<T: RangeValue>(min: T) -> EntryView {
    (
        "Must be at least "@ + min.spec_text(),
        locale_with("validate-number-min-value"@, "min"@, min.spec_locale_value()),
    )
}

pub open spec fn max_value_entry<T: RangeValue>(max: T) -> EntryView {
    (
        "Must be at most "@ + max.spec_text(),
        locale_with("validate-number-max-value"@, "max"@, max.spec_locale_value()),
    )
}

/// What a range rule reports: nothing for an absent subject; otherwise the
/// lower and the upper bound are checked independently.
pub open spec fn range_entries<T: RangeValue>(min: Option<T>, max: Option<T>, subject: Option<T>) -> Seq<
    EntryView,
> {
    match subject {
        None => seq![],
        Some(s) => (if min is Some && s.spec_int() < min->0.spec_int() {
            seq![min_value_entry(min->0)]
        } else {
            seq![]
        }) + (if max is Some && max->0.spec_int() < s.spec_int() {
            seq![max_value_entry(max->0)]
        } else {
            seq![]
        }),
    }
}

/// Optional inclusive bounds on a number.
pub struct NumberRangeRules<T: RangeValue> {
    pub min: Option<T>,
    pub max: Option<T>,
}

impl<T: RangeValue> NumberRangeRules<T> {
    /// Reports a value below `min` and a value above `max`, each on its own.
    pub fn check(&self, messages: &mut ValidateErrorCollector, subject: Option<T>)
        ensures
            final(messages)@ == old(messages)@ + range_entries(self.min, self.max, subject),
    {
        let ghost start = old(messages)@;
        match &subject {
            None => {
                assert(start + range_entries(self.min, self.max, subject) == start);
            },
            Some(s) => {
                if let Some(min) = &self.min {
                    if s.less_than(min) {
                        let msg = concat2("Must be at least ", min.display().as_str());
                        messages.push((msg, ErrorCause::NumberRange(NumberRangeLocale::MinValue(min.to_locale_value()))));
                    }
                }
                let ghost mid = messages@;
                assert(mid == start + (if self.min is Some && s.spec_int() < self.min->0.spec_int() {
                    seq![min_value_entry(self.min->0)]
                } else {
                    seq![]
                }));
                if let Some(max) = &self.max {
                    if max.less_than(s) {
                        let msg = concat2("Must be at most ", max.display().as_str());
                        messages.push((msg, ErrorCause::NumberRange(NumberRangeLocale::MaxValue(max.to_locale_value()))));
                    }
                }
                assert(messages@ == mid + (if self.max is Some && self.max->0.spec_int() < s.spec_int() {
                    seq![max_value_entry(self.max->0)]
                } else {
                    seq![]
                }));
            },
        }
    }
}

} // verus!
