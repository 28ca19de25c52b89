use cjtoolkit_structured_validator::common::string_validator::StrValidationExtension;

#[test]
fn counts_character_classes() {
    let owned = String::from("Ab1!xY 9?");
    let v = owned.as_string_validator();
    assert_eq!(v.count_graphemes(), 9);
    assert!(!v.is_empty());
    assert_eq!(v.count_ascii_uppercase(), 2);
    assert_eq!(v.count_ascii_lowercase(), 2);
    assert_eq!(v.count_ascii_uppercase_and_lowercase(), 4);
    assert_eq!(v.count_ascii_digit(), 2);
    assert_eq!(v.count_ascii_alphanumeric(), 6);
    assert_eq!(v.count_special_chars(), 2);
    assert!(v.has_ascii_uppercase());
    assert!(v.has_ascii_lowercase());
    assert!(v.has_ascii_uppercase_and_lowercase());
    assert!(v.has_ascii_digit());
    assert!(v.has_ascii_alphanumeric());
    assert!(v.has_special_chars());
}

#[test]
fn empty_and_non_ascii_text() {
    let v = "".as_string_validator();
    assert!(v.is_empty());
    assert_eq!(v.count_graphemes(), 0);
    let w = "ÄÖü é".as_string_validator();
    assert!(!w.has_ascii_uppercase());
    assert!(!w.has_ascii_lowercase());
    assert!(!w.has_special_chars());
    assert_eq!(w.count_ascii_alphanumeric(), 0);
    assert_eq!(w.count_graphemes(), 5);
}

#[test]
fn every_listed_special_character_counts() {
    let all = "!@#$%^&*()-_=+[]{}\\|;:'\",.<>/?";
    let v = all.as_string_validator();
    assert_eq!(v.count_special_chars(), 30);
    let none = "~`€ ".as_string_validator();
    assert_eq!(none.count_special_chars(), 0);
}
