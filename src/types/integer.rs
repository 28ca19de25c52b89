//! Signed integers: required by default, between 0 and 255.
use crate::base::number_rules::{range_entries, NumberMandatoryRules, NumberRangeRules};
use crate::base::string_rules::cannot_be_empty_entry;
use crate::common::locale::{EntryView, ValidateErrorCollector, ValidateErrorStore};
use crate::common::validation_check::ValidationCheck;
use vstd::prelude::*;

verus! {

/// Rules for a signed integer field.
#[derive(Clone, Copy, Debug)]
pub struct IntegerRules {
    pub is_mandatory: bool,
    pub min: Option<isize>,
    pub max: Option<isize>,
}

impl Default for IntegerRules {
    fn default() -> (r: IntegerRules)
        ensures
            r == IntegerRules::default_spec(),
    {
        IntegerRules { is_mandatory: true, min: Some(0), max: Some(255) }
    }
}

/// What validating `s` against `rules` reports: an optional absent input
/// passes, a required absent input gets the presence entry alone, otherwise
/// the range rule speaks.
pub open spec fn integer_entries(s: Option<isize>, rules: IntegerRules) -> Seq<EntryView> {
    if s is None {
        if rules.is_mandatory {
            seq![cannot_be_empty_entry()]
        } else {
            seq![]
        }
    } else {
        range_entries(rules.min, rules.max, s)
    }
}

impl IntegerRules {
    /// The rules that `default` gives.
    pub open spec fn default_spec() -> IntegerRules {
        IntegerRules { is_mandatory: true, min: Some(0), max: Some(255) }
    }

    fn rules(&self) -> (r: (NumberMandatoryRules, NumberRangeRules<isize>))
        ensures
            r.0.is_mandatory == self.is_mandatory,
            r.1.min == self.min,
            r.1.max == self.max,
    {
        (NumberMandatoryRules { is_mandatory: self.is_mandatory }, NumberRangeRules {
            min: self.min,
            max: self.max,
        })
    }

    fn check(&self, messages: &mut ValidateErrorCollector, subject: Option<isize>)
        requires
            old(messages)@.len() == 0,
        ensures
            final(messages)@ == integer_entries(subject, *self),
    {
        if !self.is_mandatory && subject.is_none() {
            return;
        }
        let (mandatory_rule, range_rule) = self.rules();
        mandatory_rule.check(messages, subject);
        if !messages.is_empty() {
            return;
        }
        range_rule.check(messages, subject);
    }
}

/// An integer that failed validation, with every collected failure.
#[derive(Clone, Debug, PartialEq, Default)]
pub struct IntegerError(pub ValidateErrorStore);

impl ValidationCheck for IntegerError {
    open spec fn store_view(&self) -> Seq<EntryView> {
        self.0@
    }

    fn validate_new(messages: ValidateErrorStore) -> (r: IntegerError) {
        IntegerError(messages)
    }
}

/// A validated integer (0 when the input was absent), remembering whether it was.
#[derive(Clone, Debug, PartialEq, Default)]
pub struct Integer(isize, bool);

impl View for Integer {
    type V = (isize, bool);

    closed spec fn view(&self) -> (isize, bool) {
        (self.0, self.1)
    }
}

impl Integer {
    /// Validates `s` against `rules`: `Ok` exactly when no rule reports anything.
    pub fn parse_custom(s: Option<isize>, rules: IntegerRules) -> (r: Result<Integer, IntegerError>)
        ensures
            r is Ok <==> integer_entries(s, rules).len() == 0,
            r matches Ok(n) ==> n@ == (match s {
                Some(v) => v,
                None => 0,
            }, s is None),
            r matches Err(e) ==> e.0@ == integer_entries(s, rules),
    {
        let is_none = s.is_none();
        let mut messages = ValidateErrorCollector::new();
        rules.check(&mut messages, s);
        let value: isize = match s {
            Some(v) => v,
            None => 0,
        };
        match IntegerError::validate_check(messages) {
            Err(e) => Err(e),
            Ok(()) => Ok(Integer(value, is_none)),
        }
    }

    /// As `parse_custom` with the default rules.
    pub fn parse(s: Option<isize>) -> (r: Result<Integer, IntegerError>)
        ensures
            r is Ok <==> integer_entries(s, IntegerRules::default_spec()).len() == 0,
            r matches Ok(n) ==> n@ == (match s {
                Some(v) => v,
                None => 0,
            }, s is None),
            r matches Err(e) ==> e.0@ == integer_entries(s, IntegerRules::default_spec()),
    {
        Integer::parse_custom(s, IntegerRules::default())
    }

    pub fn as_isize(&self) -> (r: isize)
        ensures
            r == self@.0,
    {
        self.0
    }

    /// `None` when the input was absent, otherwise the value itself.
    pub fn into_option(self) -> (r: Option<Integer>)
        ensures
            r == (if self@.1 {
                None
            } else {
                Some(self)
            }),
    {
        if self.1 {
            None
        } else {
            Some(self)
        }
    }
}

} // verus!
