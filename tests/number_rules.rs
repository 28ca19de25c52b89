use cjtoolkit_structured_validator::base::number_rules::{NumberMandatoryRules, NumberRangeRules};
use cjtoolkit_structured_validator::common::locale::{LocaleMessage, LocaleValue, ValidateErrorCollector};

#[test]
fn number_rules_test_empty_value() {
    let mut messages = ValidateErrorCollector::new();
    let subject: Option<f64> = None;
    let rules = NumberMandatoryRules { is_mandatory: true };
    rules.check(&mut messages, subject);
    assert_eq!(messages.len(), 1);
    assert_eq!(messages.0[0].0, "Cannot be empty");
}

#[test]
fn number_rules_test_not_empty_value() {
    let mut messages = ValidateErrorCollector::new();
    let subject: Option<f64> = Some(1.0);
    let rules = NumberMandatoryRules { is_mandatory: true };
    rules.check(&mut messages, subject);
    assert_eq!(messages.len(), 0);
}

// The range rule works on integers: a bound of 2 with subjects on either side.
#[test]
fn test_invalid_min_value_rule() {
    let mut messages = ValidateErrorCollector::new();
    let subject: Option<isize> = Some(1);
    let rules = NumberRangeRules { min: Some(2isize), max: None };
    rules.check(&mut messages, subject);
    assert_eq!(messages.len(), 1);
    assert_eq!(messages.0[0].0, "Must be at least 2");
}

#[test]
fn test_valid_min_value_rule() {
    let mut messages = ValidateErrorCollector::new();
    let subject: Option<isize> = Some(2);
    let rules = NumberRangeRules { min: Some(2isize), max: None };
    rules.check(&mut messages, subject);
    assert_eq!(messages.len(), 0);
}

#[test]
fn test_max_value_rule() {
    let mut messages = ValidateErrorCollector::new();
    let subject: Option<usize> = Some(1);
    let rules = NumberRangeRules { min: None, max: Some(2usize) };
    rules.check(&mut messages, subject);
    assert_eq!(messages.len(), 0);
}

#[test]
fn test_valid_max_value_rule() {
    let mut messages = ValidateErrorCollector::new();
    let subject: Option<usize> = Some(3);
    let rules = NumberRangeRules { min: None, max: Some(2usize) };
    rules.check(&mut messages, subject);
    assert_eq!(messages.len(), 1);
    assert_eq!(messages.0[0].0, "Must be at most 2");
}

#[test]
fn range_bounds_inside_below_above() {
    let rules = NumberRangeRules { min: Some(-10isize), max: Some(10isize) };
    let mut messages = ValidateErrorCollector::new();
    rules.check(&mut messages, Some(-10));
    rules.check(&mut messages, Some(10));
    rules.check(&mut messages, Some(0));
    rules.check(&mut messages, None);
    assert_eq!(messages.len(), 0);
    rules.check(&mut messages, Some(-11));
    assert_eq!(messages.len(), 1);
    assert_eq!(messages.0[0].0, "Must be at least -10");
    rules.check(&mut messages, Some(11));
    assert_eq!(messages.len(), 2);
    assert_eq!(messages.0[1].0, "Must be at most 10");
}

#[test]
fn range_causes_carry_the_bound() {
    let rules = NumberRangeRules { min: Some(5usize), max: Some(7usize) };
    let mut messages = ValidateErrorCollector::new();
    rules.check(&mut messages, Some(1));
    rules.check(&mut messages, Some(9));
    let low = messages.0[0].1.get_locale_data();
    assert_eq!(low.name, "validate-number-min-value");
    assert_eq!(low.args.len(), 1);
    assert_eq!(low.args[0].0, "min");
    assert!(matches!(low.args[0].1, LocaleValue::Uint(5)));
    let high = messages.0[1].1.get_locale_data();
    assert_eq!(high.name, "validate-number-max-value");
    assert!(matches!(high.arg("max"), Some(LocaleValue::Uint(7))));
    assert!(high.arg("min").is_none());
}

#[test]
fn misconfigured_range_reports_both() {
    let rules = NumberRangeRules { min: Some(10isize), max: Some(0isize) };
    let mut messages = ValidateErrorCollector::new();
    rules.check(&mut messages, Some(5));
    assert_eq!(messages.len(), 2);
    assert_eq!(messages.0[0].0, "Must be at least 10");
    assert_eq!(messages.0[1].0, "Must be at most 0");
}
