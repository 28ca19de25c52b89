//! Unsigned integers: required by default, between 0 and 255.
use crate::base::number_rules::{range_entries, NumberMandatoryRules, NumberRangeRules};
use crate::base::string_rules::cannot_be_empty_entry;
use crate::common::locale::{EntryView, ValidateErrorCollector, ValidateErrorStore};
use crate::common::validation_check::ValidationCheck;
use vstd::prelude::*;

verus! {

/// Rules for an unsigned integer field.
#[derive(Clone, Copy, Debug)]
pub struct UnsignedRules {
    pub is_mandatory: bool,
    pub min: Option<usize>,
    pub max: Option<usize>,
}

impl Default for UnsignedRules {
    fn default() -> (r: UnsignedRules)
        ensures
            r == UnsignedRules::default_spec(),
    {
        UnsignedRules { is_mandatory: true, min: Some(0), max: Some(255) }
    }
}

/// What validating `s` against `rules` reports: an optional absent input
/// passes, a required absent input gets the presence entry alone, otherwise
/// the range rule speaks.
pub open spec fn unsigned_entries(s: Option<usize>, rules: UnsignedRules) -> Seq<EntryView> {
    if s is None {
        if rules.is_mandatory {
            seq![cannot_be_empty_entry()]
        } else {
            seq![]
        }
    } else {
        range_entries(rules.min, rules.max, s)
    }
}

impl UnsignedRules {
    /// The rules that `default` gives.
    pub open spec fn default_spec() -> UnsignedRules {
        UnsignedRules { is_mandatory: true, min: Some(0), max: Some(255) }
    }

    fn rules(&self) -> (r: (NumberMandatoryRules, NumberRangeRules<usize>))
        ensures
            r.0.is_mandatory == self.is_mandatory,
            r.1.min == self.min,
            r.1.max == self.max,
    {
        (NumberMandatoryRules { is_mandatory: self.is_mandatory }, NumberRangeRules {
            min: self.min,
            max: self.max,
        })
    }

    fn check(&self, messages: &mut ValidateErrorCollector, subject: Option<usize>)
        requires
            old(messages)@.len() == 0,
        ensures
            final(messages)@ == unsigned_entries(subject, *self),
    {
        if !self.is_mandatory && subject.is_none() {
            return;
        }
        let (mandatory_rule, range_rule) = self.rules();
        mandatory_rule.check(messages, subject);
        if !messages.is_empty() {
            return;
        }
        range_rule.check(messages, subject);
    }
}

/// An unsigned integer that failed validation, with every collected failure.
#[derive(Clone, Debug, PartialEq, Default)]
pub struct UnsignedError(pub ValidateErrorStore);

impl ValidationCheck for UnsignedError {
    open spec fn store_view(&self) -> Seq<EntryView> {
        self.0@
    }

    fn validate_new(messages: ValidateErrorStore) -> (r: UnsignedError) {
        UnsignedError(messages)
    }
}

/// A validated unsigned integer (0 when the input was absent), remembering whether it was.
#[derive(Clone, Debug, PartialEq)]
pub struct Unsigned(usize, bool);

impl View for Unsigned {
    type V = (usize, bool);

    closed spec fn view(&self) -> (usize, bool) {
        (self.0, self.1)
    }
}

impl Default for Unsigned {
    fn default() -> (r: Unsigned)
        ensures
            r@ == (0usize, true),
    {
        Unsigned(0, true)
    }
}

impl Unsigned {
    /// Validates `s` against `rules`: `Ok` exactly when no rule reports anything.
    pub fn parse_custom(s: Option<usize>, rules: UnsignedRules) -> (r: Result<Unsigned, UnsignedError>)
        ensures
            r is Ok <==> unsigned_entries(s, rules).len() == 0,
            r matches Ok(n) ==> n@ == (match s {
                Some(v) => v,
                None => 0,
            }, s is None),
            r matches Err(e) ==> e.0@ == unsigned_entries(s, rules),
    {
        let is_none = s.is_none();
        let mut messages = ValidateErrorCollector::new();
        rules.check(&mut messages, s);
        let value: usize = match s {
            Some(v) => v,
            None => 0,
        };
        match UnsignedError::validate_check(messages) {
            Err(e) => Err(e),
            Ok(()) => Ok(Unsigned(value, is_none)),
        }
    }

    /// As `parse_custom` with the default rules.
    pub fn parse(s: Option<usize>) -> (r: Result<Unsigned, UnsignedError>)
        ensures
            r is Ok <==> unsigned_entries(s, UnsignedRules::default_spec()).len() == 0,
            r matches Ok(n) ==> n@ == (match s {
                Some(v) => v,
                None => 0,
            }, s is None),
            r matches Err(e) ==> e.0@ == unsigned_entries(s, UnsignedRules::default_spec()),
    {
        Unsigned::parse_custom(s, UnsignedRules::default())
    }

    pub fn as_usize(&self) -> (r: usize)
        ensures
            r == self@.0,
    {
        self.0
    }

    /// `None` when the input was absent, otherwise the value itself.
    pub fn into_option(self) -> (r: Option<Unsigned>)
        ensures
            r == (if self@.1 {
                None
            } else {
                Some(self)
            }),
    {
        if self.1 {
            None
        } else {
            Some(self)
        }
    }
}

/// Reads the value out of a parse result, 0 for an error.
pub trait AsUnsignedOnResult {
    spec fn spec_as_usize(&self) -> usize;

    fn as_usize(&self) -> (r: usize)
        ensures
            r == self.spec_as_usize(),
    ;
}

impl<E> AsUnsignedOnResult for Result<Unsigned, E> {
    open spec fn spec_as_usize(&self) -> usize {
        match self {
            Ok(u) => u@.0,
            Err(_) => 0,
        }
    }

    fn as_usize(&self) -> (r: usize) {
        match self {
            Ok(u) => u.as_usize(),
            Err(_) => 0,
        }
    }
}

} // verus!
