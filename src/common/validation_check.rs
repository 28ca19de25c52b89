//! The one place where a finished collector becomes success or a typed error.
use crate::common::locale::{EntryView, ValidateErrorCollector, ValidateErrorStore};
use vstd::prelude::*;

verus! {

/// An error type that wraps a store of collected failures.
pub trait ValidationCheck: Sized {
    /// The entries of the store that the error wraps.
    spec fn store_view(&self) -> Seq<EntryView>;

    fn validate_new(messages: ValidateErrorStore) -> (r: Self)
        ensures
            r.store_view() == messages@,
    ;

    /// `Ok` when nothing was collected, otherwise the error wrapping a store
    /// of every collected entry, in order.
    fn validate_check(messages: ValidateErrorCollector) -> (r: Result<(), Self>)
        ensures
            r is Ok <==> messages@.len() == 0,
            r matches Err(e) ==> e.store_view() == messages@,
    {
        if messages.is_empty() {
            Ok(())
        } else {
            Err(Self::validate_new(ValidateErrorStore::from_collector(messages)))
        }
    }
}

} // verus!
