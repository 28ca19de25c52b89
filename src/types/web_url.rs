//! URLs: required by default, and accepted by the URL parser.
use crate::base::string_rules::{
    cannot_be_empty_entry, opt_text, text_or_empty, StringMandatoryRules,
};
use crate::common::locale::{
    plain_locale, EntryView, ErrorCause, LocaleData, LocaleDataView, LocaleMessage,
    ValidateErrorCollector, ValidateErrorStore,
};
use crate::common::string_validator::{StrValidationExtension, StringValidator};
use crate::common::validation_check::ValidationCheck;
use crate::types::str_or_empty;
use ::url::Url as UrlValue;
use vstd::prelude::*;

verus! {

#[verifier::external_type_specification]
#[verifier::external_body]
pub struct ExUrl(::url::Url);

/// Relies on the derived `Clone` of `url::Url`: a field-for-field copy.
pub assume_specification[ <::url::Url as Clone>::clone ](u: &::url::Url) -> (r: ::url::Url)
    ensures
        r == *u,
;

/// Whether the URL parser accepts a text as an absolute URL.
pub uninterp spec fn url_accepts(s: Seq<char>) -> bool;

/// Relies on `url::Url::parse`: `Ok` exactly for the texts that it accepts,
/// which depends on the text alone; the error itself is not kept.
#[verifier::external_body]
fn parse_url_value(s: &str) -> (r: Option<UrlValue>)
    ensures
        r is Some <==> url_accepts(s@),
{
    UrlValue::parse(s).ok()
}

/// Rules for a URL field.
#[derive(Clone, Copy, Debug)]
pub struct UrlRules {
    pub is_mandatory: bool,
}

impl Default for UrlRules {
    fn default() -> (r: UrlRules)
        ensures
            r == (UrlRules { is_mandatory: true }),
    {
        UrlRules { is_mandatory: true }
    }
}

/// Cause of a text that is not a URL. Key `validate-invalid-url`.
#[derive(Debug)]
pub struct UrlValueLocale;

impl LocaleMessage for UrlValueLocale {
    open spec fn locale_view(&self) -> LocaleDataView {
        plain_locale("validate-invalid-url"@)
    }

    fn get_locale_data(&self) -> (r: LocaleData) {
        LocaleData::new("validate-invalid-url")
    }
}

pub open spec fn invalid_url_entry() -> EntryView {
    ("Invalid URL"@, plain_locale("validate-invalid-url"@))
}

/// What the presence rule reports for `s`: an optional absent input passes.
pub open spec fn url_rule_entries(s: Option<Seq<char>>, rules: UrlRules) -> Seq<EntryView> {
    if rules.is_mandatory && text_or_empty(s).len() == 0 {
        seq![cannot_be_empty_entry()]
    } else {
        seq![]
    }
}

impl UrlRules {
    fn rule(&self) -> (r: StringMandatoryRules)
        ensures
            r.is_mandatory == self.is_mandatory,
    {
        StringMandatoryRules { is_mandatory: self.is_mandatory }
    }

    fn check(&self, messages: &mut ValidateErrorCollector, subject: &StringValidator, is_none: bool)
        requires
            old(messages)@.len() == 0,
            is_none ==> subject@.len() == 0,
        ensures
            final(messages)@ == url_rule_entries(
                if is_none {
                    None
                } else {
                    Some(subject@)
                },
                *self,
            ),
    {
        if !self.is_mandatory && is_none {
            return;
        }
        let rule = self.rule();
        rule.check(messages, subject);
    }
}

/// A URL that failed validation, with every collected failure.
#[derive(Clone, Debug, PartialEq, Default)]
pub struct UrlError(pub ValidateErrorStore);

impl ValidationCheck for UrlError {
    open spec fn store_view(&self) -> Seq<EntryView> {
        self.0@
    }

    fn validate_new(messages: ValidateErrorStore) -> (r: UrlError) {
        UrlError(messages)
    }
}

/// A validated URL: the text as given, the parsed URL, and whether the
/// input was absent.
#[derive(Clone, Debug, PartialEq)]
pub struct WebUrl(String, Option<UrlValue>, bool);

impl View for WebUrl {
    /// The text, whether the input was absent, whether a parsed URL is held.
    type V = (Seq<char>, bool, bool);

    closed spec fn view(&self) -> (Seq<char>, bool, bool) {
        (self.0@, self.2, self.1 is Some)
    }
}

impl Default for WebUrl {
    fn default() -> (r: WebUrl)
        ensures
            r@ == (Seq::<char>::empty(), true, false),
    {
        WebUrl(String::new(), None, true)
    }
}

impl WebUrl {
    /// Validates `s`: an optional absent input passes as absent; otherwise
    /// the presence rule first, then the URL parser must accept the text.
    pub fn parse_custom(s: Option<&str>, rules: UrlRules) -> (r: Result<WebUrl, UrlError>)
        ensures
            (!rules.is_mandatory && s is None) ==> (r matches Ok(m) && m@ == (
                Seq::<char>::empty(),
                true,
                false,
            )),
            (rules.is_mandatory || s is Some) ==> (r is Ok <==> (url_rule_entries(opt_text(s), rules).len()
                == 0 && url_accepts(text_or_empty(opt_text(s))))),
            (rules.is_mandatory || s is Some) && url_rule_entries(opt_text(s), rules).len() > 0 ==> (r matches Err(
                e,
            ) && e.0@ == url_rule_entries(opt_text(s), rules)),
            (rules.is_mandatory || s is Some) && url_rule_entries(opt_text(s), rules).len() == 0 ==> (r matches Err(
                e,
            ) ==> e.0@ == seq![invalid_url_entry()]),
            (rules.is_mandatory || s is Some) ==> (r matches Ok(m) ==> m@ == (
                text_or_empty(opt_text(s)),
                false,
                true,
            )),
    {
        let is_none = s.is_none();
        if !rules.is_mandatory && is_none {
            return Ok(WebUrl(String::new(), None, true));
        }
        let t = str_or_empty(s);
        let subject = t.as_string_validator();
        let mut messages = ValidateErrorCollector::new();
        rules.check(&mut messages, &subject, is_none);
        match UrlError::validate_check(messages) {
            Err(e) => {
                return Err(e);
            },
            Ok(()) => {},
        }
        let parsed = parse_url_value(t);
        let mut messages = ValidateErrorCollector::new();
        if parsed.is_none() {
            messages.push((String::from_str("Invalid URL"), ErrorCause::UrlValue(UrlValueLocale)));
        }
        match UrlError::validate_check(messages) {
            Err(e) => Err(e),
            Ok(()) => Ok(WebUrl(String::from_str(t), parsed, false)),
        }
    }

    /// As `parse_custom` with the default rules.
    pub fn parse(s: Option<&str>) -> (r: Result<WebUrl, UrlError>)
        ensures
            r is Ok <==> (text_or_empty(opt_text(s)).len() > 0 && url_accepts(
                text_or_empty(opt_text(s)),
            )),
            text_or_empty(opt_text(s)).len() == 0 ==> (r matches Err(e) && e.0@ == seq![
                cannot_be_empty_entry(),
            ]),
            text_or_empty(opt_text(s)).len() > 0 ==> (r matches Err(e) ==> e.0@ == seq![
                invalid_url_entry(),
            ]),
            r matches Ok(m) ==> m@ == (text_or_empty(opt_text(s)), s is None, true),
    {
        WebUrl::parse_custom(s, UrlRules::default())
    }

    /// The parsed URL, when one is held.
    pub fn as_url(&self) -> (r: Option<&UrlValue>)
        ensures
            r is Some == self@.2,
    {
        self.1.as_ref()
    }

    pub fn as_str(&self) -> (r: &str)
        ensures
            r@ == self@.0,
    {
        self.0.as_str()
    }

    /// `None` when the input was absent, otherwise the URL itself.
    pub fn into_option(self) -> (r: Option<WebUrl>)
        ensures
            r == (if self@.1 {
                None
            } else {
                Some(self)
            }),
    {
        if self.2 {
            None
        } else {
            Some(self)
        }
    }
}

} // verus!
