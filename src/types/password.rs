//! Passwords: required by default, 8 to 64 grapheme clusters, with every
//! character class, and a confirmation check.
use crate::base::string_rules::{
    opt_text, special_char_entries, string_field_entries, text_or_empty, StringLengthRules,
    StringMandatoryRules, StringSpecialCharRules,
};
use crate::common::locale::{
    plain_locale, EntryView, ErrorCause, LocaleData, LocaleDataView, LocaleMessage,
    ValidateErrorCollector, ValidateErrorStore,
};
use crate::common::string_validator::{StrValidationExtension, StringValidator};
use crate::common::validation_check::ValidationCheck;
use crate::types::str_or_empty;
use vstd::prelude::*;

verus! {

/// Rules for a password field.
#[derive(Clone, Copy, Debug)]
pub struct PasswordRules {
    pub is_mandatory: bool,
    pub must_have_uppercase: bool,
    pub must_have_lowercase: bool,
    pub must_have_special_chars: bool,
    pub must_have_digit: bool,
    pub min_length: Option<usize>,
    pub max_length: Option<usize>,
}

impl Default for PasswordRules {
    fn default() -> (r: PasswordRules)
        ensures
            r == (PasswordRules {
            is_mandatory: true,
            must_have_uppercase: true,
            must_have_lowercase: true,
            must_have_special_chars: true,
            must_have_digit: true,
            min_length: Some(8),
            max_length: Some(64),
        }),
    {
        PasswordRules {
            is_mandatory: true,
            must_have_uppercase: true,
            must_have_lowercase: true,
            must_have_special_chars: true,
            must_have_digit: true,
            min_length: Some(8),
            max_length: Some(64),
        }
    }
}

/// What validating `s` against `rules` reports: as a plain string field, and
/// once presence is satisfied the character classes as well.
pub open spec fn password_entries(s: Option<Seq<char>>, rules: PasswordRules) -> Seq<EntryView> {
    let base = string_field_entries(rules.is_mandatory, rules.min_length, rules.max_length, s);
    if !rules.is_mandatory && s is None {
        seq![]
    } else if rules.is_mandatory && text_or_empty(s).len() == 0 {
        base
    } else {
        base + special_char_entries(rules.char_rules(), text_or_empty(s))
    }
}

impl PasswordRules {
    /// The character-class part of the rules.
    pub open spec fn char_rules(self) -> StringSpecialCharRules {
        StringSpecialCharRules {
            must_have_uppercase: self.must_have_uppercase,
            must_have_lowercase: self.must_have_lowercase,
            must_have_special_chars: self.must_have_special_chars,
            must_have_digit: self.must_have_digit,
        }
    }

    fn rules(&self) -> (r: (StringMandatoryRules, StringLengthRules, StringSpecialCharRules))
        ensures
            r.0.is_mandatory == self.is_mandatory,
            r.1.min_length == self.min_length,
            r.1.max_length == self.max_length,
            r.2 == self.char_rules(),
    {
        (
            StringMandatoryRules { is_mandatory: self.is_mandatory },
            StringLengthRules { min_length: self.min_length, max_length: self.max_length },
            StringSpecialCharRules {
                must_have_uppercase: self.must_have_uppercase,
                must_have_lowercase: self.must_have_lowercase,
                must_have_special_chars: self.must_have_special_chars,
                must_have_digit: self.must_have_digit,
            },
        )
    }

    fn check(&self, messages: &mut ValidateErrorCollector, subject: &StringValidator, is_none: bool)
        requires
            old(messages)@.len() == 0,
            is_none ==> subject@.len() == 0,
        ensures
            final(messages)@ == password_entries(
                if is_none {
                    None
                } else {
                    Some(subject@)
                },
                *self,
            ),
    {
        if !self.is_mandatory && is_none {
            return;
        }
        let (mandatory_rule, length_rule, special_char_rule) = self.rules();
        mandatory_rule.check(messages, subject);
        if !messages.is_empty() {
            return;
        }
        length_rule.check(messages, subject);
        special_char_rule.check(messages, subject);
    }
}

/// A password that failed validation, with every collected failure.
#[derive(Clone, Debug, PartialEq, Default)]
pub struct PasswordError(pub ValidateErrorStore);

impl ValidationCheck for PasswordError {
    open spec fn store_view(&self) -> Seq<EntryView> {
        self.0@
    }

    fn validate_new(messages: ValidateErrorStore) -> (r: PasswordError) {
        PasswordError(messages)
    }
}

/// A validated password, remembering whether the input was absent.
#[derive(Clone, PartialEq)]
pub struct Password(String, bool);

impl View for Password {
    type V = (Seq<char>, bool);

    closed spec fn view(&self) -> (Seq<char>, bool) {
        (self.0@, self.1)
    }
}

impl Default for Password {
    fn default() -> (r: Password)
        ensures
            r@ == (Seq::<char>::empty(), true),
    {
        Password(String::new(), true)
    }
}

impl Password {
    /// Validates `s` against `rules`: `Ok` exactly when no rule reports anything.
    pub fn parse_custom(s: Option<&str>, rules: PasswordRules) -> (r: Result<Password, PasswordError>)
        ensures
            r is Ok <==> password_entries(opt_text(s), rules).len() == 0,
            r matches Ok(n) ==> n@ == (text_or_empty(opt_text(s)), s is None),
            r matches Err(e) ==> e.0@ == password_entries(opt_text(s), rules),
    {
        let is_none = s.is_none();
        let t = str_or_empty(s);
        let subject = t.as_string_validator();
        let mut messages = ValidateErrorCollector::new();
        rules.check(&mut messages, &subject, is_none);
        match PasswordError::validate_check(messages) {
            Err(e) => Err(e),
            Ok(()) => Ok(Password(String::from_str(t), is_none)),
        }
    }

    /// As `parse_custom` with the default rules.
    pub fn parse(s: Option<&str>) -> (r: Result<Password, PasswordError>)
        ensures
            r is Ok <==> password_entries(opt_text(s), PasswordRules::default_spec()).len() == 0,
            r matches Ok(n) ==> n@ == (text_or_empty(opt_text(s)), s is None),
            r matches Err(e) ==> e.0@ == password_entries(opt_text(s), PasswordRules::default_spec()),
    {
        Password::parse_custom(s, PasswordRules::default())
    }

    pub fn as_str(&self) -> (r: &str)
        ensures
            r@ == self@.0,
    {
        self.0.as_str()
    }

    /// `None` when the input was absent, otherwise the password itself.
    pub fn into_option(self) -> (r: Option<Password>)
        ensures
            r == (if self@.1 {
                None
            } else {
                Some(self)
            }),
    {
        if self.1 {
            None
        } else {
            Some(self)
        }
    }
}

/// Cause of a confirmation that differs. Key `validate-password-does-not-match`.
#[derive(Debug)]
pub struct PasswordDoesNotMatchLocale;

impl LocaleMessage for PasswordDoesNotMatchLocale {
    open spec fn locale_view(&self) -> LocaleDataView {
        plain_locale("validate-password-does-not-match"@)
    }

    fn get_locale_data(&self) -> (r: LocaleData) {
        LocaleData::new("validate-password-does-not-match")
    }
}

/// The entry of a confirmation that differs.
pub open spec fn password_mismatch_entry() -> EntryView {
    ("Password does not match"@, plain_locale("validate-password-does-not-match"@))
}

impl Password {
    /// Checks that `password_confirm` repeats the password exactly.
    pub fn parse_confirm(&self, password_confirm: &str) -> (r: Result<Password, PasswordError>)
        ensures
            r is Ok <==> password_confirm@ == self@.0,
            r matches Ok(p) ==> p == *self,
            r matches Err(e) ==> e.0@ == seq![password_mismatch_entry()],
    {
        let mut msgs = ValidateErrorCollector::new();
        let confirm = String::from_str(password_confirm);
        if confirm != self.0 {
            msgs.push((String::from_str("Password does not match"), ErrorCause::PasswordDoesNotMatch(PasswordDoesNotMatchLocale)));
        }
        match PasswordError::validate_check(msgs) {
            Err(e) => Err(e),
            Ok(()) => Ok(Password(self.0.clone(), self.1)),
        }
    }
}

impl PasswordRules {
    /// The rules that `default` gives.
    pub open spec fn default_spec() -> PasswordRules {
        PasswordRules {
            is_mandatory: true,
            must_have_uppercase: true,
            must_have_lowercase: true,
            must_have_special_chars: true,
            must_have_digit: true,
            min_length: Some(8),
            max_length: Some(64),
        }
    }
}

} // verus!
