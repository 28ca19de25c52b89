use cjtoolkit_structured_validator::base::string_rules::{StringLengthLocale, StringMandatoryLocale};
use cjtoolkit_structured_validator::common::flag_error::{flag_error, FlagCounter};
use cjtoolkit_structured_validator::common::locale::{
    ErrorCause, LocaleData, LocaleMessage, LocaleValue, ValidateErrorCollector, ValidateErrorStore,
};
use cjtoolkit_structured_validator::common::validation_check::ValidationCheck;
use cjtoolkit_structured_validator::types::name::NameError;

#[test]
fn test_validate_check_is_err() {
    let mut messages = ValidateErrorCollector::new();
    messages.push(("error".to_string(), ErrorCause::StringMandatory(StringMandatoryLocale)));
    let result = NameError::validate_check(messages);
    assert!(result.is_err());
    assert_eq!(result.unwrap_err().0.as_original_message_vec(), vec!["error".to_string()]);
}

#[test]
fn test_validate_check_is_ok() {
    let messages = ValidateErrorCollector::new();
    assert!(NameError::validate_check(messages).is_ok());
}

#[test]
fn test_flag_error() {
    let mut flag = false;
    let result: Result<(), ()> = flag_error(&mut flag, Ok(()));
    assert!(result.is_ok());
    assert!(!flag);
}

#[test]
fn test_flag_error_err() {
    let mut flag = false;
    let result: Result<(), ()> = flag_error(&mut flag, Err(()));
    assert!(result.is_err());
    assert!(flag);
}

#[test]
fn flag_counter_counts_errors() {
    let mut counter = FlagCounter::new();
    assert!(!counter.is_flagged());
    let a: Result<i32, &str> = counter.check(Ok(1));
    let b: Result<i32, &str> = counter.check(Err("x"));
    let c: Result<i32, &str> = counter.check(Err("y"));
    assert_eq!(a, Ok(1));
    assert_eq!(b, Err("x"));
    assert_eq!(c, Err("y"));
    assert!(counter.is_flagged());
    assert_eq!(counter.get_count(), 2);
}

fn store_of(entries: Vec<(&str, ErrorCause)>) -> ValidateErrorStore {
    let mut messages = ValidateErrorCollector::new();
    for (m, c) in entries {
        messages.push((m.to_string(), c));
    }
    ValidateErrorStore::from_collector(messages)
}

#[test]
fn stores_with_same_messages_are_equal_whatever_the_causes() {
    let a = store_of(vec![
        ("Cannot be empty", ErrorCause::StringMandatory(StringMandatoryLocale)),
        ("Too short", ErrorCause::StringLength(StringLengthLocale::MinLength(3))),
    ]);
    let b = store_of(vec![
        ("Cannot be empty", ErrorCause::StringLength(StringLengthLocale::MaxLength(9))),
        ("Too short", ErrorCause::Data(LocaleData::new("other"))),
    ]);
    assert!(a == b);
    assert!(NameError(a.clone()) == NameError(b.clone()));
    let c = store_of(vec![
        ("Too short", ErrorCause::StringMandatory(StringMandatoryLocale)),
        ("Cannot be empty", ErrorCause::StringMandatory(StringMandatoryLocale)),
    ]);
    assert!(a != c);
    let empty = store_of(vec![]);
    assert!(empty == store_of(vec![]));
    assert!(empty != a);
}

#[test]
fn store_hands_back_messages_in_order() {
    let store = store_of(vec![
        ("first", ErrorCause::StringMandatory(StringMandatoryLocale)),
        ("second", ErrorCause::StringLength(StringLengthLocale::MaxLength(4))),
    ]);
    assert_eq!(store.as_original_message_vec(), vec!["first".to_string(), "second".to_string()]);
    assert_eq!(store.as_original_message().len(), 2);
    let again = store.as_validate_error_collector();
    assert_eq!(again.len(), 2);
    assert_eq!(again.0[1].0, "second");
    let data = again.0[1].1.get_locale_data();
    assert_eq!(data.name, "validate-max-length");
    assert!(matches!(data.arg("max"), Some(LocaleValue::Uint(4))));
}

#[test]
fn locale_values_from_plain_values() {
    assert!(matches!(LocaleValue::from("hi"), LocaleValue::String(s) if s == "hi"));
    assert!(matches!(LocaleValue::from_text("hi"), LocaleValue::String(s) if s == "hi"));
    assert!(matches!(LocaleValue::from("x".to_string()), LocaleValue::String(s) if s == "x"));
    assert!(matches!(LocaleValue::from(3usize), LocaleValue::Uint(3)));
    assert!(matches!(LocaleValue::from(-3isize), LocaleValue::Int(-3)));
}

#[test]
fn locale_data_lookup_takes_the_last_repeat() {
    let data = LocaleData::new_with_vec(
        "example",
        vec![
            ("key".to_string(), LocaleValue::Int(-1)),
            ("other".to_string(), LocaleValue::String("x".to_string())),
            ("key".to_string(), LocaleValue::Int(2)),
        ],
    );
    assert_eq!(data.name, "example");
    assert!(matches!(data.arg("key"), Some(LocaleValue::Int(2))));
    assert!(matches!(data.arg("other"), Some(LocaleValue::String(s)) if s == "x"));
    assert!(data.arg("missing").is_none());
    let copy = data.get_locale_data();
    assert_eq!(copy.args.len(), 3);
    assert!(LocaleData::new("k").args.is_empty());
}
