use cjtoolkit_structured_validator::common::locale::LocaleMessage;
use cjtoolkit_structured_validator::types::description::{Description, DescriptionRules};
use cjtoolkit_structured_validator::types::email::{Email, EmailRules};
use cjtoolkit_structured_validator::types::integer::{Integer, IntegerRules};
use cjtoolkit_structured_validator::types::name::{Name, NameRules};
use cjtoolkit_structured_validator::types::password::{Password, PasswordError, PasswordRules};
use cjtoolkit_structured_validator::types::unsigned::{AsUnsignedOnResult, Unsigned, UnsignedRules};
use cjtoolkit_structured_validator::types::username::{IsUsernameTaken, Username, UsernameRules};
use cjtoolkit_structured_validator::types::web_url::{UrlRules, WebUrl};
use cjtoolkit_structured_validator::types::AsStringOnResult;

fn lax_password_rules() -> PasswordRules {
    PasswordRules {
        is_mandatory: false,
        must_have_uppercase: false,
        must_have_lowercase: false,
        must_have_special_chars: false,
        must_have_digit: false,
        min_length: None,
        max_length: None,
    }
}

fn password_messages(r: Result<Password, PasswordError>) -> Vec<String> {
    match r {
        Ok(_) => vec![],
        Err(e) => e.0.as_original_message_vec(),
    }
}

fn password(text: &str) -> Password {
    Password::parse_custom(Some(text), lax_password_rules()).unwrap()
}

#[test]
fn name_absent_with_defaults_has_one_message() {
    let err = Name::parse(None).unwrap_err();
    assert_eq!(err.0.as_original_message_vec(), vec!["Cannot be empty".to_string()]);
}

#[test]
fn name_valid_with_defaults() {
    let name = Name::parse(Some("ValidName")).unwrap();
    assert_eq!(name.as_str(), "ValidName");
    assert!(name.into_option().is_some());
}

#[test]
fn name_length_messages() {
    let err = Name::parse(Some("abc")).unwrap_err();
    assert_eq!(err.0.as_original_message_vec(), vec!["Must be at least 5 characters".to_string()]);
    let err = Name::parse(Some("abcdefghijklmnopqrstu")).unwrap_err();
    assert_eq!(err.0.as_original_message_vec(), vec!["Must be at most 20 characters".to_string()]);
    let err = Name::parse(Some("")).unwrap_err();
    assert_eq!(err.0.as_original_message_vec(), vec!["Cannot be empty".to_string()]);
}

#[test]
fn optional_absent_fields_pass() {
    let rules = NameRules { is_mandatory: false, min_length: Some(5), max_length: Some(20) };
    let name = Name::parse_custom(None, rules).unwrap();
    assert_eq!(name.as_str(), "");
    assert!(name.into_option().is_none());
    let rules = NameRules { is_mandatory: false, min_length: Some(5), max_length: Some(20) };
    let err = Name::parse_custom(Some("ab"), rules).unwrap_err();
    assert_eq!(err.0.as_original_message_vec().len(), 1);
    let password = Password::parse_custom(
        None,
        PasswordRules { is_mandatory: false, ..PasswordRules::default() },
    )
    .unwrap();
    assert!(password.into_option().is_none());
    let number = Integer::parse_custom(None, IntegerRules { is_mandatory: false, min: Some(1), max: Some(2) }).unwrap();
    assert_eq!(number.as_isize(), 0);
    assert!(number.into_option().is_none());
    let email = Email::parse_custom(None, EmailRules { is_mandatory: false }).unwrap();
    assert_eq!(email.as_str(), "");
    assert!(email.as_email().is_none());
    assert!(email.into_option().is_none());
    let url = WebUrl::parse_custom(None, UrlRules { is_mandatory: false }).unwrap();
    assert_eq!(url.as_str(), "");
    assert!(url.as_url().is_none());
    assert!(url.into_option().is_none());
    let err = Email::parse_custom(Some(""), EmailRules { is_mandatory: false }).unwrap_err();
    assert_eq!(err.0.as_original_message_vec(), vec!["Invalid Email".to_string()]);
}

#[test]
fn required_absent_fields_have_exactly_one_message() {
    let rules = NameRules { is_mandatory: true, min_length: Some(50), max_length: Some(1) };
    assert_eq!(Name::parse_custom(None, rules).unwrap_err().0.as_original_message_vec().len(), 1);
    assert_eq!(password_messages(Password::parse(None)), vec!["Cannot be empty".to_string()]);
    let err = Unsigned::parse_custom(None, UnsignedRules { is_mandatory: true, min: Some(9), max: Some(1) }).unwrap_err();
    assert_eq!(err.0.as_original_message_vec(), vec!["Cannot be empty".to_string()]);
    let err = Email::parse(None).unwrap_err();
    assert_eq!(err.0.as_original_message_vec(), vec!["Cannot be empty".to_string()]);
}

#[test]
fn description_defaults() {
    assert!(Description::parse(Some("a")).is_ok());
    let long = "x".repeat(41);
    let err = Description::parse(Some(long.as_str())).unwrap_err();
    assert_eq!(err.0.as_original_message_vec(), vec!["Must be at most 40 characters".to_string()]);
    let rules = DescriptionRules { is_mandatory: false, min_length: None, max_length: None };
    assert!(Description::parse_custom(None, rules).unwrap().into_option().is_none());
    assert_eq!(Description::parse(Some("text")).as_string(), "text");
}

#[test]
fn email_test_valid_email() {
    let email = Email::parse(Some("test@example.com"));
    assert!(email.is_ok());
}

#[test]
fn email_test_invalid_email() {
    let email = Email::parse(Some("test"));
    assert!(email.is_err());
}

#[test]
fn email_test_email_confirm_valid() {
    let email = Email::parse(Some("test@example.com")).unwrap_or_default();
    let email_confirm = email.parse_confirm("test@example.com");
    assert!(email_confirm.is_ok());
}

#[test]
fn email_test_email_confirm_invalid() {
    let email = Email::parse(Some("test@example.com")).unwrap_or_default();
    let email_confirm = email.parse_confirm("test");
    assert!(email_confirm.is_err());
}

#[test]
fn email_messages_and_accessors() {
    let err = Email::parse(Some("test")).unwrap_err();
    assert_eq!(err.0.as_original_message_vec(), vec!["Invalid Email".to_string()]);
    let email = Email::parse(Some("test@example.com")).unwrap();
    assert_eq!(email.as_str(), "test@example.com");
    assert_eq!(email.to_string(), "test@example.com");
    assert!(email.parse_confirm("test@example.com").unwrap() == email);
    assert!(email.as_email().is_some());
    let err = email.parse_confirm("other@example.com").unwrap_err();
    assert_eq!(err.0.as_original_message_vec(), vec!["Email does not match".to_string()]);
    assert_eq!(err.0 .0[0].1.get_locale_data().name, "validate-email-does-not-match");
    assert_eq!(Email::parse(Some("a@b.co")).as_string(), "a@b.co");
}

#[test]
fn test_valid_url() {
    let url = WebUrl::parse(Some("https://www.example.com"));
    assert!(url.is_ok());
}

#[test]
fn test_invalid_url() {
    let url = WebUrl::parse(Some("www.example.com"));
    assert!(url.is_err());
}

#[test]
fn url_messages_and_accessors() {
    let err = WebUrl::parse(Some("www.example.com")).unwrap_err();
    assert_eq!(err.0.as_original_message_vec(), vec!["Invalid URL".to_string()]);
    assert_eq!(err.0 .0[0].1.get_locale_data().name, "validate-invalid-url");
    let url = WebUrl::parse(Some("https://www.example.com")).unwrap();
    assert_eq!(url.as_str(), "https://www.example.com");
    assert_eq!(url.as_url().map(|u| u.host_str().unwrap_or("").to_string()), Some("www.example.com".to_string()));
    let err = WebUrl::parse(None).unwrap_err();
    assert_eq!(err.0.as_original_message_vec(), vec!["Cannot be empty".to_string()]);
}

#[test]
fn test_password_parse_error_password_confirmation_mismatch() {
    let password = password("match");
    let password = password.parse_confirm("mismatch");
    assert!(password.is_err());
}

#[test]
fn test_password_parse_error_password_confirmation_match() {
    let password = password("match");
    let password = password.parse_confirm("match");
    assert!(password.is_ok());
}

#[test]
fn password_default_rules() {
    assert!(Password::parse(Some("Secr3t!pass")).is_ok());
    assert_eq!(
        password_messages(Password::parse(Some("short"))),
        vec![
            "Must be at least 8 characters".to_string(),
            "Must contain at least one special character".to_string(),
            "Must contain at least one uppercase and lowercase letter".to_string(),
            "Must contain at least one digit".to_string(),
        ]
    );
    assert_eq!(password_messages(password("a").parse_confirm("b")), vec!["Password does not match".to_string()]);
}

struct FakeUsernameCheckService(String);

impl IsUsernameTaken for FakeUsernameCheckService {
    fn is_username_taken(&self, username: &str) -> bool {
        username == self.0.as_str()
    }
}

fn username(text: &str) -> Username {
    Username::parse_custom(Some(text), UsernameRules { is_mandatory: false, min_length: None, max_length: None }).unwrap()
}

#[test]
fn username_is_taken() {
    let username_result = username("taken");
    assert!(username_result.check_username_taken(&FakeUsernameCheckService("taken".to_string())).is_err())
}

#[test]
fn username_is_not_taken() {
    let username_result = username("not_taken");
    assert!(username_result.check_username_taken(&FakeUsernameCheckService("taken".to_string())).is_ok())
}

#[test]
fn username_taken_message() {
    let err = username("bob").check_username_taken_result(true).unwrap_err();
    assert_eq!(err.0.as_original_message_vec(), vec!["Already taken".to_string()]);
    let ok = username("bob").check_username_taken_result(false).unwrap();
    assert_eq!(ok.as_str(), "bob");
    assert!(Username::parse(Some("four")).is_err());
    assert!(Username::parse(Some("fiver")).is_ok());
}

#[test]
fn integer_test_integer() {
    let integer = Integer::parse(Some(10));
    assert!(integer.is_ok());
    let integer = Integer::parse(Some(1000));
    assert!(integer.is_err());
    let integer = Integer::parse(Some(-50));
    assert!(integer.is_err());
}

#[test]
fn integer_test_none_integer() {
    let integer = Integer::parse(None);
    assert!(integer.is_err());
}

#[test]
fn integer_messages() {
    let err = Integer::parse(Some(-50)).unwrap_err();
    assert_eq!(err.0.as_original_message_vec(), vec!["Must be at least 0".to_string()]);
    let err = Integer::parse(Some(1000)).unwrap_err();
    assert_eq!(err.0.as_original_message_vec(), vec!["Must be at most 255".to_string()]);
    let err = Integer::parse_custom(Some(-7), IntegerRules { is_mandatory: true, min: Some(-5), max: None }).unwrap_err();
    assert_eq!(err.0.as_original_message_vec(), vec!["Must be at least -5".to_string()]);
    assert_eq!(Integer::parse(Some(255)).unwrap().as_isize(), 255);
}

#[test]
fn unsigned_test_unsigned() {
    let unsigned = Unsigned::parse(Some(10));
    assert!(unsigned.is_ok());
    let unsigned = Unsigned::parse(Some(1000));
    assert!(unsigned.is_err());
}

#[test]
fn unsigned_test_none_unsigned() {
    let unsigned = Unsigned::parse(None);
    assert!(unsigned.is_err());
}

#[test]
fn unsigned_result_reads_value() {
    assert_eq!(Unsigned::parse(Some(42)).as_usize(), 42);
    assert_eq!(Unsigned::parse(Some(4200)).as_usize(), 0);
    let err = Unsigned::parse(Some(4200)).unwrap_err();
    assert_eq!(err.0.as_original_message_vec(), vec!["Must be at most 255".to_string()]);
}

#[test]
fn test_integer() {
    let integer = Integer::parse(Some(10));
    assert!(integer.is_ok());
    let integer = Integer::parse(Some(1000));
    assert!(integer.is_err());
    let integer = Integer::parse(Some(-50));
    assert!(integer.is_err());
}

#[test]
fn test_none_integer() {
    let integer = Integer::parse(None);
    assert!(integer.is_err());
}

#[test]
fn test_unsigned() {
    let unsigned = Unsigned::parse(Some(10));
    assert!(unsigned.is_ok());
    let unsigned = Unsigned::parse(Some(1000));
    assert!(unsigned.is_err());
}

#[test]
fn test_none_unsigned() {
    let unsigned = Unsigned::parse(None);
    assert!(unsigned.is_err());
}
