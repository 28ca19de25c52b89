//! Usernames: required by default, 5 to 30 grapheme clusters, and not taken.
use crate::base::string_rules::{
    opt_text, string_field_entries, text_or_empty, StringLengthRules, StringMandatoryRules,
};
use crate::common::locale::{
    plain_locale, EntryView, ErrorCause, LocaleData, LocaleDataView, LocaleMessage,
    ValidateErrorCollector, ValidateErrorStore,
};
use crate::common::string_validator::{StrValidationExtension, StringValidator};
use crate::common::validation_check::ValidationCheck;
use crate::types::str_or_empty;
use vstd::prelude::*;

verus! {

/// Rules for a username field.
#[derive(Clone, Copy, Debug)]
pub struct UsernameRules {
    pub is_mandatory: bool,
    pub min_length: Option<usize>,
    pub max_length: Option<usize>,
}

impl Default for UsernameRules {
    fn default() -> (r: UsernameRules)
        ensures
            r == (UsernameRules { is_mandatory: true, min_length: Some(5), max_length: Some(30) }),
    {
        UsernameRules { is_mandatory: true, min_length: Some(5), max_length: Some(30) }
    }
}

/// What validating `s` against `rules` reports.
pub open spec fn username_entries(s: Option<Seq<char>>, rules: UsernameRules) -> Seq<EntryView> {
    string_field_entries(rules.is_mandatory, rules.min_length, rules.max_length, s)
}

impl UsernameRules {
    fn rules(&self) -> (r: (StringMandatoryRules, StringLengthRules))
        ensures
            r.0.is_mandatory == self.is_mandatory,
            r.1.min_length == self.min_length,
            r.1.max_length == self.max_length,
    {
        (
            StringMandatoryRules { is_mandatory: self.is_mandatory },
            StringLengthRules { min_length: self.min_length, max_length: self.max_length },
        )
    }

    fn check(&self, messages: &mut ValidateErrorCollector, subject: &StringValidator, is_none: bool)
        requires
            old(messages)@.len() == 0,
            is_none ==> subject@.len() == 0,
        ensures
            final(messages)@ == username_entries(
                if is_none {
                    None
                } else {
                    Some(subject@)
                },
                *self,
            ),
    {
        if !self.is_mandatory && is_none {
            return;
        }
        let (mandatory_rule, length_rule) = self.rules();
        mandatory_rule.check(messages, subject);
        if !messages.is_empty() {
            return;
        }
        length_rule.check(messages, subject);
    }
}

/// A username that failed validation, with every collected failure.
#[derive(Clone, Debug, PartialEq, Default)]
pub struct UsernameError(pub ValidateErrorStore);

impl ValidationCheck for UsernameError {
    open spec fn store_view(&self) -> Seq<EntryView> {
        self.0@
    }

    fn validate_new(messages: ValidateErrorStore) -> (r: UsernameError) {
        UsernameError(messages)
    }
}

/// A validated username, remembering whether the input was absent.
#[derive(Clone, Debug, PartialEq)]
pub struct Username(String, bool);

impl View for Username {
    type V = (Seq<char>, bool);

    closed spec fn view(&self) -> (Seq<char>, bool) {
        (self.0@, self.1)
    }
}

impl Default for Username {
    fn default() -> (r: Username)
        ensures
            r@ == (Seq::<char>::empty(), true),
    {
        Username(String::new(), true)
    }
}

impl Username {
    /// Validates `s` against `rules`: `Ok` exactly when no rule reports anything.
    pub fn parse_custom(s: Option<&str>, rules: UsernameRules) -> (r: Result<Username, UsernameError>)
        ensures
            r is Ok <==> username_entries(opt_text(s), rules).len() == 0,
            r matches Ok(n) ==> n@ == (text_or_empty(opt_text(s)), s is None),
            r matches Err(e) ==> e.0@ == username_entries(opt_text(s), rules),
    {
        let is_none = s.is_none();
        let t = str_or_empty(s);
        let subject = t.as_string_validator();
        let mut messages = ValidateErrorCollector::new();
        rules.check(&mut messages, &subject, is_none);
        match UsernameError::validate_check(messages) {
            Err(e) => Err(e),
            Ok(()) => Ok(Username(String::from_str(t), is_none)),
        }
    }

    /// As `parse_custom` with the default rules.
    pub fn parse(s: Option<&str>) -> (r: Result<Username, UsernameError>)
        ensures
            r is Ok <==> username_entries(opt_text(s), UsernameRules::default_spec()).len() == 0,
            r matches Ok(n) ==> n@ == (text_or_empty(opt_text(s)), s is None),
            r matches Err(e) ==> e.0@ == username_entries(opt_text(s), UsernameRules::default_spec()),
    {
        Username::parse_custom(s, UsernameRules::default())
    }

    pub fn as_str(&self) -> (r: &str)
        ensures
            r@ == self@.0,
    {
        self.0.as_str()
    }

    /// `None` when the input was absent, otherwise the username itself.
    pub fn into_option(self) -> (r: Option<Username>)
        ensures
            r == (if self@.1 {
                None
            } else {
                Some(self)
            }),
    {
        if self.1 {
            None
        } else {
            Some(self)
        }
    }
}

/// A service that knows which usernames are already in use.
pub trait IsUsernameTaken {
    fn is_username_taken(&self, username: &str) -> bool;
}

/// Cause of a username that is in use. Key `validate-username-taken`.
#[derive(Debug)]
pub struct UsernameTakenLocale;

impl LocaleMessage for UsernameTakenLocale {
    open spec fn locale_view(&self) -> LocaleDataView {
        plain_locale("validate-username-taken"@)
    }

    fn get_locale_data(&self) -> (r: LocaleData) {
        LocaleData::new("validate-username-taken")
    }
}

/// The entry of a username that is in use.
pub open spec fn username_taken_entry() -> EntryView {
    ("Already taken"@, plain_locale("validate-username-taken"@))
}

impl Username {
    /// The outcome of an is-taken lookup: an error with one entry when taken,
    /// otherwise the same username.
    pub fn check_username_taken_result(&self, is_taken: bool) -> (r: Result<Username, UsernameError>)
        ensures
            r is Ok <==> !is_taken,
            r matches Ok(u) ==> u == *self,
            r matches Err(e) ==> e.0@ == seq![username_taken_entry()],
    {
        let mut messages = ValidateErrorCollector::new();
        if is_taken {
            messages.push((String::from_str("Already taken"), ErrorCause::UsernameTaken(UsernameTakenLocale)));
        }
        match UsernameError::validate_check(messages) {
            Err(e) => Err(e),
            Ok(()) => Ok(Username(self.0.clone(), self.1)),
        }
    }

    /// Asks `service` whether this username is in use; an error when it is.
    pub fn check_username_taken<T: IsUsernameTaken>(&self, service: &T) -> (r: Result<
        Username,
        UsernameError,
    >)
        ensures
            r matches Ok(u) ==> u == *self,
            r matches Err(e) ==> e.0@ == seq![username_taken_entry()],
    {
        let taken = service.is_username_taken(self.as_str());
        self.check_username_taken_result(taken)
    }
}

impl UsernameRules {
    /// The rules that `default` gives.
    pub open spec fn default_spec() -> UsernameRules {
        UsernameRules { is_mandatory: true, min_length: Some(5), max_length: Some(30) }
    }
}

} // verus!
