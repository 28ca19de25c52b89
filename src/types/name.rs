//! Names: required by default, 5 to 20 grapheme clusters.
use crate::base::string_rules::{
    opt_text, string_field_entries, text_or_empty, StringLengthRules, StringMandatoryRules,
};
use crate::common::locale::{EntryView, ValidateErrorCollector, ValidateErrorStore};
use crate::common::string_validator::{StrValidationExtension, StringValidator};
use crate::common::validation_check::ValidationCheck;
use crate::types::str_or_empty;
use vstd::prelude::*;

verus! {

/// Rules for a name field.
#[derive(Clone, Copy, Debug)]
pub struct NameRules {
    pub is_mandatory: bool,
    pub min_length: Option<usize>,
    pub max_length: Option<usize>,
}

impl Default for NameRules {
    fn default() -> (r: NameRules)
        ensures
            r == (NameRules { is_mandatory: true, min_length: Some(5), max_length: Some(20) }),
    {
        NameRules { is_mandatory: true, min_length: Some(5), max_length: Some(20) }
    }
}

/// What validating `s` against `rules` reports.
pub open spec fn name_entries(s: Option<Seq<char>>, rules: NameRules) -> Seq<EntryView> {
    string_field_entries(rules.is_mandatory, rules.min_length, rules.max_length, s)
}

impl NameRules {
    fn rules(&self) -> (r: (StringMandatoryRules, StringLengthRules))
        ensures
            r.0.is_mandatory == self.is_mandatory,
            r.1.min_length == self.min_length,
            r.1.max_length == self.max_length,
    {
        (
            StringMandatoryRules { is_mandatory: self.is_mandatory },
            StringLengthRules { min_length: self.min_length, max_length: self.max_length },
        )
    }

    fn check(&self, messages: &mut ValidateErrorCollector, subject: &StringValidator, is_none: bool)
        requires
            old(messages)@.len() == 0,
            is_none ==> subject@.len() == 0,
        ensures
            final(messages)@ == name_entries(
                if is_none {
                    None
                } else {
                    Some(subject@)
                },
                *self,
            ),
    {
        if !self.is_mandatory && is_none {
            return;
        }
        let (mandatory_rule, length_rule) = self.rules();
        mandatory_rule.check(messages, subject);
        if !messages.is_empty() {
            return;
        }
        length_rule.check(messages, subject);
    }
}

/// A name that failed validation, with every collected failure.
#[derive(Clone, Debug, PartialEq, Default)]
pub struct NameError(pub ValidateErrorStore);

impl ValidationCheck for NameError {
    open spec fn store_view(&self) -> Seq<EntryView> {
        self.0@
    }

    fn validate_new(messages: ValidateErrorStore) -> (r: NameError) {
        NameError(messages)
    }
}

/// A validated name, remembering whether the input was absent.
#[derive(Clone, Debug, PartialEq)]
pub struct Name(String, bool);

impl View for Name {
    type V = (Seq<char>, bool);

    closed spec fn view(&self) -> (Seq<char>, bool) {
        (self.0@, self.1)
    }
}

impl Default for Name {
    fn default() -> (r: Name)
        ensures
            r@ == (Seq::<char>::empty(), true),
    {
        Name(String::new(), true)
    }
}

impl Name {
    /// Validates `s` against `rules`: `Ok` exactly when no rule reports anything.
    pub fn parse_custom(s: Option<&str>, rules: NameRules) -> (r: Result<Name, NameError>)
        ensures
            r is Ok <==> name_entries(opt_text(s), rules).len() == 0,
            r matches Ok(n) ==> n@ == (text_or_empty(opt_text(s)), s is None),
            r matches Err(e) ==> e.0@ == name_entries(opt_text(s), rules),
    {
        let is_none = s.is_none();
        let t = str_or_empty(s);
        let subject = t.as_string_validator();
        let mut messages = ValidateErrorCollector::new();
        rules.check(&mut messages, &subject, is_none);
        match NameError::validate_check(messages) {
            Err(e) => Err(e),
            Ok(()) => Ok(Name(String::from_str(t), is_none)),
        }
    }

    /// As `parse_custom` with the default rules.
    pub fn parse(s: Option<&str>) -> (r: Result<Name, NameError>)
        ensures
            r is Ok <==> name_entries(opt_text(s), NameRules::default_spec()).len() == 0,
            r matches Ok(n) ==> n@ == (text_or_empty(opt_text(s)), s is None),
            r matches Err(e) ==> e.0@ == name_entries(opt_text(s), NameRules::default_spec()),
    {
        Name::parse_custom(s, NameRules::default())
    }

    pub fn as_str(&self) -> (r: &str)
        ensures
            r@ == self@.0,
    {
        self.0.as_str()
    }

    /// `None` when the input was absent, otherwise the name itself.
    pub fn into_option(self) -> (r: Option<Name>)
        ensures
            r == (if self@.1 {
                None
            } else {
                Some(self)
            }),
    {
        if self.1 {
            None
        } else {
            Some(self)
        }
    }
}

impl NameRules {
    /// The rules that `default` gives.
    pub open spec fn default_spec() -> NameRules {
        NameRules { is_mandatory: true, min_length: Some(5), max_length: Some(20) }
    }
}

} // verus!
