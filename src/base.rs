//! Rule primitives: presence, ranges, lengths and character classes.
pub mod date_time;
pub mod lemmas;
pub mod number_rules;
pub mod string_rules;
