//! Shared pieces: string inspection, locale data, error collection and the
//! success/failure boundary.
pub mod flag_error;
pub mod locale;
pub mod string_validator;
pub mod text;
pub mod validation_check;
