//! Rules on strings: presence, length in grapheme clusters, character classes.
use crate::common::locale::{
    plain_locale, locale_with, EntryView, ErrorCause, LocaleData, LocaleDataView, LocaleMessage,
    LocaleValue, LocaleValueView, ValidateErrorCollector, one_arg,
};
use crate::common::string_validator::{grapheme_count_of, has_in_class, CharClass, StringValidator};
use crate::common::text::{concat3, nat_decimal, usize_text};
use vstd::prelude::*;

verus! {

/// The entry of a required value that is absent or empty.
pub open spec fn cannot_be_empty_entry() -> EntryView {
    ("Cannot be empty"@, plain_locale("validate-cannot-be-empty"@))
}

/// What a presence rule reports.
pub open spec fn mandatory_entries(is_mandatory: bool, absent: bool) -> Seq<EntryView> {
    if is_mandatory && absent {
        seq![cannot_be_empty_entry()]
    } else {
        seq![]
    }
}

/// The text of an optional input, absent read as empty.
pub open spec fn text_or_empty(s: Option<Seq<char>>) -> Seq<char> {
    match s {
        Some(t) => t,
        None => seq![],
    }
}

/// The view of an optional string argument.
pub open spec fn opt_text(s: Option<&str>) -> Option<Seq<char>> {
    match s {
        Some(t) => Some(t@),
        None => None,
    }
}

/// What a string field with a presence rule and a length rule reports: an
/// optional absent input passes untouched; a required empty input gets the
/// presence entry alone; otherwise the length rule speaks.
pub open spec fn string_field_entries(
    is_mandatory: bool,
    min_length: Option<usize>,
    max_length: Option<usize>,
    s: Option<Seq<char>>,
) -> Seq<EntryView> {
    if !is_mandatory && s is None {
        seq![]
    } else if is_mandatory && text_or_empty(s).len() == 0 {
        seq![cannot_be_empty_entry()]
    } else {
        length_entries(min_length, max_length, grapheme_count_of(text_or_empty(s)))
    }
}

/// Cause of an empty required string. Key `validate-cannot-be-empty`.
#[derive(Debug)]
pub struct StringMandatoryLocale;

impl LocaleMessage for StringMandatoryLocale {
    open spec fn locale_view(&self) -> LocaleDataView {
        plain_locale("validate-cannot-be-empty"@)
    }

    fn get_locale_data(&self) -> (r: LocaleData) {
        LocaleData::new("validate-cannot-be-empty")
    }
}

/// Whether a string must be present and non-empty.
#[derive(Default)]
pub struct StringMandatoryRules {
    pub is_mandatory: bool,
}

impl StringMandatoryRules {
    /// Reports "Cannot be empty" when the string is required and has no grapheme.
    pub fn check(&self, messages: &mut ValidateErrorCollector, subject: &StringValidator)
        ensures
            final(messages)@ == old(messages)@ + mandatory_entries(
                self.is_mandatory,
                subject@.len() == 0,
            ),
    {
        if self.is_mandatory && subject.is_empty() {
            messages.push((String::from_str("Cannot be empty"), ErrorCause::StringMandatory(StringMandatoryLocale)));
        } else {
            assert(old(messages)@ + mandatory_entries(self.is_mandatory, subject@.len() == 0) == old(messages)@);
        }
    }
}

/// Cause of a length violation. Keys `validate-min-length` (argument `min`)
/// and `validate-max-length` (argument `max`).
#[derive(Debug)]
pub enum StringLengthLocale {
    MinLength(usize),
    MaxLength(usize),
}

impl LocaleMessage for StringLengthLocale {
    open spec fn locale_view(&self) -> LocaleDataView {
        match self {
            StringLengthLocale::MinLength(n) => locale_with(
                "validate-min-length"@,
                "min"@,
                LocaleValueView::Uint(*n),
            ),
            StringLengthLocale::MaxLength(n) => locale_with(
                "validate-max-length"@,
                "max"@,
                LocaleValueView::Uint(*n),
            ),
        }
    }

    fn get_locale_data(&self) -> (r: LocaleData) {
        match self {
            StringLengthLocale::MinLength(n) => {
                let args = one_arg("min", LocaleValue::Uint(*n));
                LocaleData::new_with_vec("validate-min-length", args)
            },
            StringLengthLocale::MaxLength(n) => {
                let args = one_arg("max", LocaleValue::Uint(*n));
                LocaleData::new_with_vec("validate-max-length", args)
            },
        }
    }
}

pub open spec fn min_length_entry(n: usize) -> EntryView {
    (
        "Must be at least "@ + nat_decimal(n as nat) + " characters"@,
        locale_with("validate-min-length"@, "min"@, LocaleValueView::Uint(n)),
    )
}

pub open spec fn max_length_entry(n: usize) -> EntryView {
    (
        "Must be at most "@ + nat_decimal(n as nat) + " characters"@,
        locale_with("validate-max-length"@, "max"@, LocaleValueView::Uint(n)),
    )
}

/// What a length rule reports for a text of `count` grapheme clusters: each
/// bound is checked on its own.
pub open spec fn length_entries(min_length: Option<usize>, max_length: Option<usize>, count: nat) -> Seq<
    EntryView,
> {
    (if min_length is Some && count < min_length->0 {
        seq![min_length_entry(min_length->0)]
    } else {
        seq![]
    }) + (if max_length is Some && count > max_length->0 {
        seq![max_length_entry(max_length->0)]
    } else {
        seq![]
    })
}

/// Optional bounds on the number of grapheme clusters.
#[derive(Default)]
pub struct StringLengthRules {
    pub min_length: Option<usize>,
    pub max_length: Option<usize>,
}

impl StringLengthRules {
    /// Reports a too-short and a too-long text independently.
    pub fn check(&self, messages: &mut ValidateErrorCollector, subject: &StringValidator)
        ensures
            final(messages)@ == old(messages)@ + length_entries(
                self.min_length,
                self.max_length,
                grapheme_count_of(subject@),
            ),
    {
        self.check_count(messages, subject.count_graphemes());
    }

    /// As `check`, for a text of `count` grapheme clusters.
    pub fn check_count(&self, messages: &mut ValidateErrorCollector, count: usize)
        ensures
            final(messages)@ == old(messages)@ + length_entries(
                self.min_length,
                self.max_length,
                count as nat,
            ),
    {
        let ghost start = old(messages)@;
        if let Some(min_length) = self.min_length {
            if count < min_length {
                let n = usize_text(min_length);
                let msg = concat3("Must be at least ", n.as_str(), " characters");
                messages.push((msg, ErrorCause::StringLength(StringLengthLocale::MinLength(min_length))));
            }
        }
        let ghost mid = messages@;
        assert(mid == start + (if self.min_length is Some && count < self.min_length->0 {
            seq![min_length_entry(self.min_length->0)]
        } else {
            seq![]
        }));
        if let Some(max_length) = self.max_length {
            if count > max_length {
                let n = usize_text(max_length);
                let msg = concat3("Must be at most ", n.as_str(), " characters");
                messages.push((msg, ErrorCause::StringLength(StringLengthLocale::MaxLength(max_length))));
            }
        }
        assert(messages@ == mid + (if self.max_length is Some && count > self.max_length->0 {
            seq![max_length_entry(self.max_length->0)]
        } else {
            seq![]
        }));
    }
}

/// Cause of a missing character class; each variant has its own key.
#[derive(Debug)]
pub enum StringSpecialCharLocale {
    MustHaveSpecialChars,
    MustHaveUppercaseAndLowercase,
    MustHaveUppercase,
    MustHaveLowercase,
    MustHaveDigit,
}

pub open spec fn special_char_key(c: StringSpecialCharLocale) -> Seq<char> {
    match c {
        StringSpecialCharLocale::MustHaveSpecialChars => "validate-must-have-special-chars"@,
        StringSpecialCharLocale::MustHaveUppercaseAndLowercase => "validate-must-have-uppercase-and-lowercase"@,
        StringSpecialCharLocale::MustHaveUppercase => "validate-must-have-uppercase"@,
        StringSpecialCharLocale::MustHaveLowercase => "validate-must-have-lowercase"@,
        StringSpecialCharLocale::MustHaveDigit => "validate-must-have-digit"@,
    }
}

pub open spec fn special_char_message(c: StringSpecialCharLocale) -> Seq<char> {
    match c {
        StringSpecialCharLocale::MustHaveSpecialChars => "Must contain at least one special character"@,
        StringSpecialCharLocale::MustHaveUppercaseAndLowercase => "Must contain at least one uppercase and lowercase letter"@,
        StringSpecialCharLocale::MustHaveUppercase => "Must contain at least one uppercase letter"@,
        StringSpecialCharLocale::MustHaveLowercase => "Must contain at least one lowercase letter"@,
        StringSpecialCharLocale::MustHaveDigit => "Must contain at least one digit"@,
    }
}

pub open spec fn special_char_entry(c: StringSpecialCharLocale) -> EntryView {
    (special_char_message(c), plain_locale(special_char_key(c)))
}

impl LocaleMessage for StringSpecialCharLocale {
    open spec fn locale_view(&self) -> LocaleDataView {
        plain_locale(special_char_key(*self))
    }

    fn get_locale_data(&self) -> (r: LocaleData) {
        match self {
            StringSpecialCharLocale::MustHaveSpecialChars => LocaleData::new("validate-must-have-special-chars"),
            StringSpecialCharLocale::MustHaveUppercaseAndLowercase => LocaleData::new("validate-must-have-uppercase-and-lowercase"),
            StringSpecialCharLocale::MustHaveUppercase => LocaleData::new("validate-must-have-uppercase"),
            StringSpecialCharLocale::MustHaveLowercase => LocaleData::new("validate-must-have-lowercase"),
            StringSpecialCharLocale::MustHaveDigit => LocaleData::new("validate-must-have-digit"),
        }
    }
}

/// What a character-class rule reports on text `s`: special characters, then
/// letter case (one combined entry when both cases are required), then digits.
pub open spec fn special_char_entries(rules: StringSpecialCharRules, s: Seq<char>) -> Seq<EntryView> {
    let upper = has_in_class(s, CharClass::AsciiUppercase);
    let lower = has_in_class(s, CharClass::AsciiLowercase);
    (if rules.must_have_special_chars && !has_in_class(s, CharClass::Special) {
        seq![special_char_entry(StringSpecialCharLocale::MustHaveSpecialChars)]
    } else {
        seq![]
    }) + (if rules.must_have_uppercase && rules.must_have_lowercase {
        if !(upper && lower) {
            seq![special_char_entry(StringSpecialCharLocale::MustHaveUppercaseAndLowercase)]
        } else {
            seq![]
        }
    } else {
        (if rules.must_have_uppercase && !upper {
            seq![special_char_entry(StringSpecialCharLocale::MustHaveUppercase)]
        } else {
            seq![]
        }) + (if rules.must_have_lowercase && !lower {
            seq![special_char_entry(StringSpecialCharLocale::MustHaveLowercase)]
        } else {
            seq![]
        })
    }) + (if rules.must_have_digit && !has_in_class(s, CharClass::AsciiDigit) {
        seq![special_char_entry(StringSpecialCharLocale::MustHaveDigit)]
    } else {
        seq![]
    })
}

/// Which character classes a string must contain.
#[derive(Default, Clone, Copy)]
pub struct StringSpecialCharRules {
    pub must_have_uppercase: bool,
    pub must_have_lowercase: bool,
    pub must_have_special_chars: bool,
    pub must_have_digit: bool,
}

fn push_special(messages: &mut ValidateErrorCollector, c: StringSpecialCharLocale)
    ensures
        final(messages)@ == old(messages)@.push(special_char_entry(c)),
{
    let msg = match c {
        StringSpecialCharLocale::MustHaveSpecialChars => String::from_str("Must contain at least one special character"),
        StringSpecialCharLocale::MustHaveUppercaseAndLowercase => String::from_str("Must contain at least one uppercase and lowercase letter"),
        StringSpecialCharLocale::MustHaveUppercase => String::from_str("Must contain at least one uppercase letter"),
        StringSpecialCharLocale::MustHaveLowercase => String::from_str("Must contain at least one lowercase letter"),
        StringSpecialCharLocale::MustHaveDigit => String::from_str("Must contain at least one digit"),
    };
    messages.push((msg, ErrorCause::StringSpecialChar(c)));
}

impl StringSpecialCharRules {
    /// Reports each required character class that the text lacks.
    pub fn check(&self, messages: &mut ValidateErrorCollector, subject: &StringValidator)
        ensures
            final(messages)@ == old(messages)@ + special_char_entries(*self, subject@),
    {
        let ghost s = subject@;
        let ghost start = old(messages)@;
        if self.must_have_special_chars {
            if !subject.has_special_chars() {
                push_special(messages, StringSpecialCharLocale::MustHaveSpecialChars);
            }
        }
        let ghost a = messages@;
        if self.must_have_uppercase && self.must_have_lowercase {
            if !subject.has_ascii_uppercase_and_lowercase() {
                push_special(messages, StringSpecialCharLocale::MustHaveUppercaseAndLowercase);
            }
        } else {
            if self.must_have_uppercase {
                if !subject.has_ascii_uppercase() {
                    push_special(messages, StringSpecialCharLocale::MustHaveUppercase);
                }
            }
            if self.must_have_lowercase {
                if !subject.has_ascii_lowercase() {
                    push_special(messages, StringSpecialCharLocale::MustHaveLowercase);
                }
            }
        }
        let ghost b = messages@;
        if self.must_have_digit {
            if !subject.has_ascii_digit() {
                push_special(messages, StringSpecialCharLocale::MustHaveDigit);
            }
        }
        assert(messages@ == start + special_char_entries(*self, s));
    }
}

} // verus!
