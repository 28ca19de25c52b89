//! Typed field values: each parses an optional raw input against its rules.
pub mod date;
pub mod date_time;
pub mod description;
pub mod email;
pub mod integer;
pub mod naive_date_time;
pub mod name;
pub mod password;
pub mod time;
pub mod times_humantime;
pub mod unsigned;
pub mod username;
pub mod web_url;

use vstd::prelude::*;

verus! {

/// The input text, or the empty text when absent.
pub(crate) fn str_or_empty(s: Option<&str>) -> (r: &str)
    ensures
        r@ == crate::base::string_rules::text_or_empty(crate::base::string_rules::opt_text(s)),
{
    match s {
        Some(t) => t,
        None => {
            proof {
                reveal_strlit("");
            }
            ""
        },
    }
}

/// The text of a successful parse, empty for an error.
pub trait AsStringOnResult {
    spec fn spec_as_string(&self) -> Seq<char>;

    fn as_string(&self) -> (r: String)
        ensures
            r@ == self.spec_as_string(),
    ;
}

impl<E> AsStringOnResult for Result<crate::types::name::Name, E> {
    open spec fn spec_as_string(&self) -> Seq<char> {
        match self {
            Ok(v) => v@.0,
            Err(_) => Seq::empty(),
        }
    }

    fn as_string(&self) -> (r: String) {
        match self {
            Ok(v) => String::from_str(v.as_str()),
            Err(_) => String::new(),
        }
    }
}

impl<E> AsStringOnResult for Result<crate::types::description::Description, E> {
    open spec fn spec_as_string(&self) -> Seq<char> {
        match self {
            Ok(v) => v@.0,
            Err(_) => Seq::empty(),
        }
    }

    fn as_string(&self) -> (r: String) {
        match self {
            Ok(v) => String::from_str(v.as_str()),
            Err(_) => String::new(),
        }
    }
}

impl<E> AsStringOnResult for Result<crate::types::username::Username, E> {
    open spec fn spec_as_string(&self) -> Seq<char> {
        match self {
            Ok(v) => v@.0,
            Err(_) => Seq::empty(),
        }
    }

    fn as_string(&self) -> (r: String) {
        match self {
            Ok(v) => String::from_str(v.as_str()),
            Err(_) => String::new(),
        }
    }
}

impl<E> AsStringOnResult for Result<crate::types::password::Password, E> {
    open spec fn spec_as_string(&self) -> Seq<char> {
        match self {
            Ok(v) => v@.0,
            Err(_) => Seq::empty(),
        }
    }

    fn as_string(&self) -> (r: String) {
        match self {
            Ok(v) => String::from_str(v.as_str()),
            Err(_) => String::new(),
        }
    }
}

impl<E> AsStringOnResult for Result<crate::types::email::Email, E> {
    open spec fn spec_as_string(&self) -> Seq<char> {
        match self {
            Ok(v) => v@.0,
            Err(_) => Seq::empty(),
        }
    }

    fn as_string(&self) -> (r: String) {
        match self {
            Ok(v) => String::from_str(v.as_str()),
            Err(_) => String::new(),
        }
    }
}

impl<E> AsStringOnResult for Result<crate::types::web_url::WebUrl, E> {
    open spec fn spec_as_string(&self) -> Seq<char> {
        match self {
            Ok(v) => v@.0,
            Err(_) => Seq::empty(),
        }
    }

    fn as_string(&self) -> (r: String) {
        match self {
            Ok(v) => String::from_str(v.as_str()),
            Err(_) => String::new(),
        }
    }
}

} // verus!
