//! Facts about how the rules compose, proved over the same spec functions
//! that the rules' and field types' contracts use.
use crate::base::date_time::{
    date_field_entries, date_max_entry, date_min_entry, date_range_entries, dt_before,
    shifted_max_view, time_range_entries, time_wraps, DateTimeDataView, SECONDS_PER_DAY,
};
use crate::base::number_rules::{max_value_entry, min_value_entry, range_entries, RangeValue};
use crate::base::string_rules::{
    cannot_be_empty_entry, special_char_entries, special_char_entry, string_field_entries,
    StringSpecialCharLocale, StringSpecialCharRules,
};
use crate::common::locale::{messages_of, store_digest, ValidateErrorStore};
use crate::common::string_validator::{has_in_class, CharClass};
use crate::types::email::{email_rule_entries, EmailRules};
use crate::types::integer::{integer_entries, IntegerRules};
use crate::types::password::{password_entries, PasswordRules};
use crate::types::unsigned::{unsigned_entries, UnsignedRules};
use vstd::prelude::*;

verus! {

/// A required string field whose input is absent reports exactly one entry,
/// "Cannot be empty", whatever its length bounds.
pub proof fn lemma_required_absent_string(min_length: Option<usize>, max_length: Option<usize>)
    ensures
        string_field_entries(true, min_length, max_length, None) == seq![cannot_be_empty_entry()],
{
}

/// A required password whose input is absent reports exactly one entry,
/// whatever its length bounds and character classes.
pub proof fn lemma_required_absent_password(rules: PasswordRules)
    requires
        rules.is_mandatory,
    ensures
        password_entries(None, rules) == seq![cannot_be_empty_entry()],
{
}

/// A required number whose input is absent reports exactly one entry,
/// whatever its range.
pub proof fn lemma_required_absent_number(irules: IntegerRules, urules: UnsignedRules)
    requires
        irules.is_mandatory,
        urules.is_mandatory,
    ensures
        integer_entries(None, irules) == seq![cannot_be_empty_entry()],
        unsigned_entries(None, urules) == seq![cannot_be_empty_entry()],
{
}

/// A required email whose input is absent reports exactly one entry.
pub proof fn lemma_required_absent_email(rules: EmailRules)
    requires
        rules.is_mandatory,
    ensures
        email_rule_entries(None, rules) == seq![cannot_be_empty_entry()],
{
}

/// A date or time field whose input is absent reports exactly the presence
/// entry when required and nothing when optional, whatever its bounds.
pub proof fn lemma_absent_date_time(
    is_mandatory: bool,
    min: Option<DateTimeDataView>,
    max: Option<DateTimeDataView>,
)
    ensures
        is_mandatory ==> date_field_entries(is_mandatory, min, max, None) == seq![
            cannot_be_empty_entry(),
        ],
        !is_mandatory ==> date_field_entries(is_mandatory, min, max, None).len() == 0,
{
}

/// An optional field whose input is absent reports nothing, whatever bounds
/// or character classes are configured.
pub proof fn lemma_optional_absent_passes(
    min_length: Option<usize>,
    max_length: Option<usize>,
    prules: PasswordRules,
    irules: IntegerRules,
    urules: UnsignedRules,
    erules: EmailRules,
)
    requires
        !prules.is_mandatory,
        !irules.is_mandatory,
        !urules.is_mandatory,
        !erules.is_mandatory,
    ensures
        string_field_entries(false, min_length, max_length, None).len() == 0,
        password_entries(None, prules).len() == 0,
        integer_entries(None, irules).len() == 0,
        unsigned_entries(None, urules).len() == 0,
        email_rule_entries(None, erules).len() == 0,
{
}

/// With `min <= max`, a range rule reports nothing inside the bounds, only
/// the "at least" entry below them and only the "at most" entry above them.
pub proof fn lemma_range_bounds<T: RangeValue>(min: T, max: T, subject: T)
    requires
        min.spec_int() <= max.spec_int(),
    ensures
        (min.spec_int() <= subject.spec_int() <= max.spec_int()) ==> range_entries(
            Some(min),
            Some(max),
            Some(subject),
        ).len() == 0,
        subject.spec_int() < min.spec_int() ==> range_entries(Some(min), Some(max), Some(subject))
            == seq![min_value_entry(min)],
        max.spec_int() < subject.spec_int() ==> range_entries(Some(min), Some(max), Some(subject))
            == seq![max_value_entry(max)],
{
    if subject.spec_int() < min.spec_int() {
        assert(range_entries(Some(min), Some(max), Some(subject)) =~= seq![min_value_entry(min)]);
    }
    if max.spec_int() < subject.spec_int() {
        assert(range_entries(Some(min), Some(max), Some(subject)) =~= seq![max_value_entry(max)]);
    }
}

/// When both letter cases are required and the text has neither, the case
/// check reports one combined entry, not one per case.
pub proof fn lemma_combined_case_entry(rules: StringSpecialCharRules, s: Seq<char>)
    requires
        rules.must_have_uppercase,
        rules.must_have_lowercase,
        !has_in_class(s, CharClass::AsciiUppercase),
        !has_in_class(s, CharClass::AsciiLowercase),
    ensures
        !rules.must_have_special_chars && !rules.must_have_digit ==> special_char_entries(rules, s)
            == seq![special_char_entry(StringSpecialCharLocale::MustHaveUppercaseAndLowercase)],
        forall|i: int|
            0 <= i < special_char_entries(rules, s).len() ==> #[trigger] special_char_entries(
                rules,
                s,
            )[i] != special_char_entry(StringSpecialCharLocale::MustHaveUppercase)
                && special_char_entries(rules, s)[i] != special_char_entry(
                StringSpecialCharLocale::MustHaveLowercase,
            ),
{
    let upper = special_char_entry(StringSpecialCharLocale::MustHaveUppercase);
    let lower = special_char_entry(StringSpecialCharLocale::MustHaveLowercase);
    let both = special_char_entry(StringSpecialCharLocale::MustHaveUppercaseAndLowercase);
    let special = special_char_entry(StringSpecialCharLocale::MustHaveSpecialChars);
    let digit = special_char_entry(StringSpecialCharLocale::MustHaveDigit);
    reveal_strlit("Must contain at least one uppercase letter");
    reveal_strlit("Must contain at least one lowercase letter");
    reveal_strlit("Must contain at least one uppercase and lowercase letter");
    reveal_strlit("Must contain at least one special character");
    reveal_strlit("Must contain at least one digit");
    assert(upper.0[38] != both.0[38]);
    assert(lower.0[38] != both.0[38]);
    assert(upper.0.len() != special.0.len());
    assert(lower.0.len() != special.0.len());
    assert(upper.0.len() != digit.0.len());
    assert(lower.0.len() != digit.0.len());
    let es = special_char_entries(rules, s);
    if !rules.must_have_special_chars && !rules.must_have_digit {
        assert(es =~= seq![both]);
    }
}

/// Stores whose original messages are the same, in the same order, are
/// equal, whatever their causes.
pub proof fn lemma_store_equal_by_messages(a: ValidateErrorStore, b: ValidateErrorStore)
    requires
        messages_of(a@) == messages_of(b@),
    ensures
        store_digest(a@) == store_digest(b@),
{
}

/// For times of day whose upper bound does not lie before the lower one,
/// the time-of-day check is the plain range check.
pub proof fn lemma_time_without_wrap(
    min: Option<DateTimeDataView>,
    max: Option<DateTimeDataView>,
    subject: Option<DateTimeDataView>,
)
    requires
        !time_wraps(min, max),
    ensures
        time_range_entries(min, max, subject) == date_range_entries(min, max, subject),
{
}

/// For times of day whose upper bound lies before the lower one, the check
/// is the plain range check against the upper bound one day later, wherever
/// that later bound fits in `i64`.
pub proof fn lemma_time_wrap_shifts_one_day(
    lo: DateTimeDataView,
    hi: DateTimeDataView,
    subject: Option<DateTimeDataView>,
)
    requires
        dt_before(hi, lo),
        hi.timestamp_seconds_days + SECONDS_PER_DAY <= i64::MAX,
    ensures
        time_range_entries(Some(lo), Some(hi), subject) == date_range_entries(
            Some(lo),
            Some(shifted_max_view(hi)),
            subject,
        ),
{
}

/// For times of day whose upper bound lies before the lower one, the window
/// wraps past midnight: a subject from the lower bound up to the upper bound
/// of the next day passes.
pub proof fn lemma_time_window_wraps(
    lo: DateTimeDataView,
    hi: DateTimeDataView,
    subject: DateTimeDataView,
)
    requires
        dt_before(hi, lo),
        !dt_before(subject, lo),
        subject.timestamp_seconds_days < hi.timestamp_seconds_days + SECONDS_PER_DAY,
    ensures
        time_range_entries(Some(lo), Some(hi), Some(subject)).len() == 0,
{
}

/// Under the same wrap, with both bounds less than a day apart, a subject
/// before the lower bound reports exactly the "after" entry of the lower bound.
pub proof fn lemma_time_window_before_start(
    lo: DateTimeDataView,
    hi: DateTimeDataView,
    subject: DateTimeDataView,
)
    requires
        dt_before(hi, lo),
        lo.timestamp_seconds_days < hi.timestamp_seconds_days + SECONDS_PER_DAY,
        dt_before(subject, lo),
    ensures
        time_range_entries(Some(lo), Some(hi), Some(subject)) == seq![date_min_entry(lo)],
{
    assert(time_range_entries(Some(lo), Some(hi), Some(subject)) =~= seq![date_min_entry(lo)]);
}

/// When the upper bound does not lie before the lower one, a subject after
/// the upper bound reports exactly its "before" entry.
pub proof fn lemma_time_window_plain(lo: DateTimeDataView, hi: DateTimeDataView, subject: DateTimeDataView)
    requires
        !dt_before(hi, lo),
        dt_before(hi, subject),
    ensures
        time_range_entries(Some(lo), Some(hi), Some(subject)) == seq![date_max_entry(hi)],
{
    assert(date_range_entries(Some(lo), Some(hi), Some(subject)) =~= seq![date_max_entry(hi)]);
}

} // verus!
