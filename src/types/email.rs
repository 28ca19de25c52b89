//! Email addresses: required by default, and accepted by the address parser.
use crate::base::string_rules::{
    cannot_be_empty_entry, opt_text, text_or_empty, StringMandatoryRules,
};
use crate::common::locale::{
    plain_locale, EntryView, ErrorCause, LocaleData, LocaleDataView, LocaleMessage,
    ValidateErrorCollector, ValidateErrorStore,
};
use crate::common::string_validator::{StrValidationExtension, StringValidator};
use crate::common::validation_check::ValidationCheck;
use crate::types::str_or_empty;
use email_address_parser::EmailAddress;
use vstd::prelude::*;

verus! {

#[verifier::external_type_specification]
#[verifier::external_body]
pub struct ExEmailAddress(email_address_parser::EmailAddress);

/// Relies on the derived `Clone` of `email_address_parser::email_address_parser::EmailAddress`: a
/// field-for-field copy.
pub assume_specification[ <email_address_parser::EmailAddress as Clone>::clone ](e: &email_address_parser::EmailAddress) -> (r: email_address_parser::EmailAddress)
    ensures
        r == *e,
;

/// Whether the address parser accepts a text as an email address.
pub uninterp spec fn email_accepts(s: Seq<char>) -> bool;

/// Relies on `email_address_parser::EmailAddress::parse(s, None)` (strict
/// parsing): `Some` exactly for the texts that it accepts, which depends on
/// the text alone.
#[verifier::external_body]
fn parse_email_address(s: &str) -> (r: Option<EmailAddress>)
    ensures
        r is Some <==> email_accepts(s@),
{
    EmailAddress::parse(s, None)
}

/// Rules for an email field.
#[derive(Clone, Copy, Debug)]
pub struct EmailRules {
    pub is_mandatory: bool,
}

impl Default for EmailRules {
    fn default() -> (r: EmailRules)
        ensures
            r == (EmailRules { is_mandatory: true }),
    {
        EmailRules { is_mandatory: true }
    }
}

/// Cause of an email failure: `validate-email-invalid` for a text that is not
/// an address, `validate-email-does-not-match` for a differing confirmation.
#[derive(Debug)]
pub enum EmailAddressLocale {
    InvalidEmail,
    DoesNotMatch,
}

impl LocaleMessage for EmailAddressLocale {
    open spec fn locale_view(&self) -> LocaleDataView {
        match self {
            EmailAddressLocale::InvalidEmail => plain_locale("validate-email-invalid"@),
            EmailAddressLocale::DoesNotMatch => plain_locale("validate-email-does-not-match"@),
        }
    }

    fn get_locale_data(&self) -> (r: LocaleData) {
        match self {
            EmailAddressLocale::InvalidEmail => LocaleData::new("validate-email-invalid"),
            EmailAddressLocale::DoesNotMatch => LocaleData::new("validate-email-does-not-match"),
        }
    }
}

pub open spec fn invalid_email_entry() -> EntryView {
    ("Invalid Email"@, plain_locale("validate-email-invalid"@))
}

pub open spec fn email_mismatch_entry() -> EntryView {
    ("Email does not match"@, plain_locale("validate-email-does-not-match"@))
}

/// What the presence rule reports for `s`: an optional absent input passes.
pub open spec fn email_rule_entries(s: Option<Seq<char>>, rules: EmailRules) -> Seq<EntryView> {
    if rules.is_mandatory && text_or_empty(s).len() == 0 {
        seq![cannot_be_empty_entry()]
    } else {
        seq![]
    }
}

impl EmailRules {
    fn rule(&self) -> (r: StringMandatoryRules)
        ensures
            r.is_mandatory == self.is_mandatory,
    {
        StringMandatoryRules { is_mandatory: self.is_mandatory }
    }

    fn check(&self, messages: &mut ValidateErrorCollector, subject: &StringValidator, is_none: bool)
        requires
            old(messages)@.len() == 0,
            is_none ==> subject@.len() == 0,
        ensures
            final(messages)@ == email_rule_entries(
                if is_none {
                    None
                } else {
                    Some(subject@)
                },
                *self,
            ),
    {
        if !self.is_mandatory && is_none {
            return;
        }
        let rule = self.rule();
        rule.check(messages, subject);
    }
}

/// An email that failed validation, with every collected failure.
#[derive(Clone, Debug, PartialEq, Default)]
pub struct EmailError(pub ValidateErrorStore);

impl ValidationCheck for EmailError {
    open spec fn store_view(&self) -> Seq<EntryView> {
        self.0@
    }

    fn validate_new(messages: ValidateErrorStore) -> (r: EmailError) {
        EmailError(messages)
    }
}

/// A validated email: the text as given, the parsed address, and whether the
/// input was absent.
#[derive(Clone, Debug, PartialEq)]
pub struct Email(String, Option<EmailAddress>, bool);

impl View for Email {
    /// The text, whether the input was absent, whether an address is held.
    type V = (Seq<char>, bool, bool);

    closed spec fn view(&self) -> (Seq<char>, bool, bool) {
        (self.0@, self.2, self.1 is Some)
    }
}

impl Default for Email {
    fn default() -> (r: Email)
        ensures
            r@ == (Seq::<char>::empty(), true, false),
    {
        Email(String::new(), None, true)
    }
}

impl Email {
    /// Validates `s`: an optional absent input passes as absent; otherwise
    /// the presence rule first, then the address parser must accept the text.
    pub fn parse_custom(s: Option<&str>, rules: EmailRules) -> (r: Result<Email, EmailError>)
        ensures
            (!rules.is_mandatory && s is None) ==> (r matches Ok(m) && m@ == (
                Seq::<char>::empty(),
                true,
                false,
            )),
            (rules.is_mandatory || s is Some) ==> (r is Ok <==> (email_rule_entries(opt_text(s), rules).len()
                == 0 && email_accepts(text_or_empty(opt_text(s))))),
            (rules.is_mandatory || s is Some) && email_rule_entries(opt_text(s), rules).len() > 0 ==> (r matches Err(
                e,
            ) && e.0@ == email_rule_entries(opt_text(s), rules)),
            (rules.is_mandatory || s is Some) && email_rule_entries(opt_text(s), rules).len() == 0 ==> (r matches Err(
                e,
            ) ==> e.0@ == seq![invalid_email_entry()]),
            (rules.is_mandatory || s is Some) ==> (r matches Ok(m) ==> m@ == (
                text_or_empty(opt_text(s)),
                false,
                true,
            )),
    {
        let is_none = s.is_none();
        if !rules.is_mandatory && is_none {
            return Ok(Email(String::new(), None, true));
        }
        let t = str_or_empty(s);
        let subject = t.as_string_validator();
        let mut messages = ValidateErrorCollector::new();
        rules.check(&mut messages, &subject, is_none);
        match EmailError::validate_check(messages) {
            Err(e) => {
                return Err(e);
            },
            Ok(()) => {},
        }
        let parsed = parse_email_address(t);
        let mut messages = ValidateErrorCollector::new();
        if parsed.is_none() {
            messages.push((String::from_str("Invalid Email"), ErrorCause::EmailAddress(EmailAddressLocale::InvalidEmail)));
        }
        match EmailError::validate_check(messages) {
            Err(e) => Err(e),
            Ok(()) => Ok(Email(String::from_str(t), parsed, false)),
        }
    }

    /// As `parse_custom` with the default rules.
    pub fn parse(s: Option<&str>) -> (r: Result<Email, EmailError>)
        ensures
            r is Ok <==> (text_or_empty(opt_text(s)).len() > 0 && email_accepts(
                text_or_empty(opt_text(s)),
            )),
            text_or_empty(opt_text(s)).len() == 0 ==> (r matches Err(e) && e.0@ == seq![
                cannot_be_empty_entry(),
            ]),
            text_or_empty(opt_text(s)).len() > 0 ==> (r matches Err(e) ==> e.0@ == seq![
                invalid_email_entry(),
            ]),
            r matches Ok(m) ==> m@ == (text_or_empty(opt_text(s)), s is None, true),
    {
        Email::parse_custom(s, EmailRules::default())
    }

    /// Checks that `confirm_email` repeats the email text exactly.
    pub fn parse_confirm(&self, confirm_email: &str) -> (r: Result<Email, EmailError>)
        ensures
            r is Ok <==> confirm_email@ == self@.0,
            r matches Ok(m) ==> m == *self,
            r matches Err(e) ==> e.0@ == seq![email_mismatch_entry()],
    {
        let mut messages = ValidateErrorCollector::new();
        let confirm = String::from_str(confirm_email);
        if self.0 != confirm {
            messages.push((String::from_str("Email does not match"), ErrorCause::EmailAddress(EmailAddressLocale::DoesNotMatch)));
        }
        match EmailError::validate_check(messages) {
            Err(e) => Err(e),
            Ok(()) => {
                let address = match &self.1 {
                    Some(a) => Some(a.clone()),
                    None => None,
                };
                Ok(Email(self.0.clone(), address, self.2))
            },
        }
    }

    /// The parsed address, when one is held.
    pub fn as_email(&self) -> (r: Option<&EmailAddress>)
        ensures
            r is Some == self@.2,
    {
        self.1.as_ref()
    }

    /// The email text, as given.
    pub fn to_string(&self) -> (r: String)
        ensures
            r@ == self@.0,
    {
        self.0.clone()
    }

    pub fn as_str(&self) -> (r: &str)
        ensures
            r@ == self@.0,
    {
        self.0.as_str()
    }

    /// `None` when the input was absent, otherwise the email itself.
    pub fn into_option(self) -> (r: Option<Email>)
        ensures
            r == (if self@.1 {
                None
            } else {
                Some(self)
            }),
    {
        if self.2 {
            None
        } else {
            Some(self)
        }
    }
}

} // verus!
