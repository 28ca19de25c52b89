use cjtoolkit_structured_validator::base::string_rules::{
    StringLengthRules, StringMandatoryRules, StringSpecialCharRules,
};
use cjtoolkit_structured_validator::common::locale::ValidateErrorCollector;
use cjtoolkit_structured_validator::common::string_validator::StrValidationExtension;

fn all_classes() -> StringSpecialCharRules {
    StringSpecialCharRules {
        must_have_uppercase: true,
        must_have_lowercase: true,
        must_have_special_chars: true,
        must_have_digit: true,
    }
}

#[test]
fn test_string_mandatory_rule_check_empty_string() {
    let mut messages = ValidateErrorCollector::new();
    let subject = "".as_string_validator();
    let rule = StringMandatoryRules { is_mandatory: true };
    rule.check(&mut messages, &subject);
    assert_eq!(messages.len(), 1);
    assert_eq!(messages.0[0].0, "Cannot be empty");
}

#[test]
fn test_string_mandatory_rule_check_not_empty_string() {
    let mut messages = ValidateErrorCollector::new();
    let subject = "Hello".as_string_validator();
    let rule = StringMandatoryRules { is_mandatory: true };
    rule.check(&mut messages, &subject);
    assert_eq!(messages.len(), 0);
}

#[test]
fn test_string_length_rule_check_empty_string() {
    let mut messages = ValidateErrorCollector::new();
    let subject = "".as_string_validator();
    let rule = StringLengthRules { min_length: Some(5), max_length: Some(10) };
    rule.check(&mut messages, &subject);
    assert_eq!(messages.len(), 1);
    assert_eq!(messages.0[0].0, "Must be at least 5 characters");
}

#[test]
fn test_string_length_rule_check_too_long_string() {
    let mut messages = ValidateErrorCollector::new();
    let subject = "Hello".as_string_validator();
    let rule = StringLengthRules { min_length: Some(2), max_length: Some(4) };
    rule.check(&mut messages, &subject);
    assert_eq!(messages.len(), 1);
    assert_eq!(messages.0[0].0, "Must be at most 4 characters");
}

#[test]
fn test_string_special_char_rule_check_empty_string() {
    let mut messages = ValidateErrorCollector::new();
    let subject = "".as_string_validator();
    all_classes().check(&mut messages, &subject);
    assert_eq!(messages.len(), 3);
    assert_eq!(messages.0[0].0, "Must contain at least one special character");
    assert_eq!(messages.0[1].0, "Must contain at least one uppercase and lowercase letter");
    assert_eq!(messages.0[2].0, "Must contain at least one digit");
}

#[test]
fn test_string_special_char_rule_check_not_empty_string() {
    let mut messages = ValidateErrorCollector::new();
    let subject = "Hello".as_string_validator();
    all_classes().check(&mut messages, &subject);
    assert_eq!(messages.len(), 2);
    assert_eq!(messages.0[0].0, "Must contain at least one special character");
    assert_eq!(messages.0[1].0, "Must contain at least one digit");
}

#[test]
fn test_string_special_char_rule_check_not_empty_string_with_uppercase_and_lowercase_and_symbol() {
    let mut messages = ValidateErrorCollector::new();
    let subject = "Hello@".as_string_validator();
    all_classes().check(&mut messages, &subject);
    assert_eq!(messages.len(), 1);
    assert_eq!(messages.0[0].0, "Must contain at least one digit");
}

#[test]
fn test_string_special_char_rule_check_not_empty_string_with_uppercase_and_lowercase_and_digit() {
    let mut messages = ValidateErrorCollector::new();
    let subject = "Hello1".as_string_validator();
    all_classes().check(&mut messages, &subject);
    assert_eq!(messages.len(), 1);
    assert_eq!(messages.0[0].0, "Must contain at least one special character");
}

#[test]
fn test_string_special_char_rule_check_not_empty_string_with_uppercase_and_lowercase_digit_and_symbol() {
    let mut messages = ValidateErrorCollector::new();
    let subject = "Hello1@".as_string_validator();
    all_classes().check(&mut messages, &subject);
    assert_eq!(messages.len(), 0);
}

#[test]
fn five_multibyte_graphemes_meet_min_length_five() {
    let flags = "\u{1F1EC}\u{1F1E7}\u{1F1EB}\u{1F1F7}\u{1F1E9}\u{1F1EA}\u{1F1EE}\u{1F1F9}\u{1F1EA}\u{1F1F8}";
    assert!(flags.len() > 5);
    let subject = flags.as_string_validator();
    assert_eq!(subject.count_graphemes(), 5);
    let mut messages = ValidateErrorCollector::new();
    StringLengthRules { min_length: Some(5), max_length: Some(5) }.check(&mut messages, &subject);
    assert_eq!(messages.len(), 0);
    let mut messages = ValidateErrorCollector::new();
    StringLengthRules { min_length: None, max_length: Some(4) }.check(&mut messages, &subject);
    assert_eq!(messages.len(), 1);
    assert_eq!(messages.0[0].0, "Must be at most 4 characters");
}

#[test]
fn combining_marks_count_as_one_grapheme() {
    let text = "e\u{301}e\u{301}";
    let subject = text.as_string_validator();
    assert_eq!(subject.count_graphemes(), 2);
    let mut messages = ValidateErrorCollector::new();
    StringLengthRules { min_length: Some(3), max_length: None }.check(&mut messages, &subject);
    assert_eq!(messages.len(), 1);
    assert_eq!(messages.0[0].0, "Must be at least 3 characters");
}

#[test]
fn both_cases_required_missing_gives_one_combined_message() {
    let mut messages = ValidateErrorCollector::new();
    let subject = "1234!".as_string_validator();
    let rules = StringSpecialCharRules {
        must_have_uppercase: true,
        must_have_lowercase: true,
        must_have_special_chars: false,
        must_have_digit: false,
    };
    rules.check(&mut messages, &subject);
    assert_eq!(messages.len(), 1);
    assert_eq!(messages.0[0].0, "Must contain at least one uppercase and lowercase letter");
}

#[test]
fn single_case_requirements_report_separately() {
    let subject = "1234".as_string_validator();
    let mut messages = ValidateErrorCollector::new();
    let upper_only = StringSpecialCharRules {
        must_have_uppercase: true,
        must_have_lowercase: false,
        must_have_special_chars: false,
        must_have_digit: false,
    };
    upper_only.check(&mut messages, &subject);
    assert_eq!(messages.len(), 1);
    assert_eq!(messages.0[0].0, "Must contain at least one uppercase letter");
    let mut messages = ValidateErrorCollector::new();
    let lower_only = StringSpecialCharRules {
        must_have_uppercase: false,
        must_have_lowercase: true,
        must_have_special_chars: false,
        must_have_digit: false,
    };
    lower_only.check(&mut messages, &subject);
    assert_eq!(messages.len(), 1);
    assert_eq!(messages.0[0].0, "Must contain at least one lowercase letter");
}

#[test]
fn optional_mandatory_rule_ignores_empty_string() {
    let mut messages = ValidateErrorCollector::new();
    let subject = "".as_string_validator();
    StringMandatoryRules { is_mandatory: false }.check(&mut messages, &subject);
    assert!(messages.is_empty());
}

#[test]
fn min_above_max_reports_both_bounds() {
    let mut messages = ValidateErrorCollector::new();
    let subject = "abcdef".as_string_validator();
    StringLengthRules { min_length: Some(12), max_length: Some(3) }.check(&mut messages, &subject);
    assert_eq!(messages.len(), 2);
    assert_eq!(messages.0[0].0, "Must be at least 12 characters");
    assert_eq!(messages.0[1].0, "Must be at most 3 characters");
    let mut messages = ValidateErrorCollector::new();
    let subject = "abcdefgh".as_string_validator();
    StringLengthRules { min_length: Some(10), max_length: Some(7) }.check(&mut messages, &subject);
    assert_eq!(messages.len(), 2);
    assert_eq!(messages.0[0].0, "Must be at least 10 characters");
    assert_eq!(messages.0[1].0, "Must be at most 7 characters");
}
