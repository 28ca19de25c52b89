//! Tracking whether results along the way were errors, without consuming them.
use vstd::prelude::*;

verus! {

/// Sets `flag` when `result` is an error and hands `result` back unchanged.
pub fn flag_error<T, E>(flag: &mut bool, result: Result<T, E>) -> (r: Result<T, E>)
    ensures
        r == result,
        *final(flag) == (*old(flag) || result is Err),
{
    if result.is_err() {
        *flag = true;
    }
    result
}

/// Counts the error results that pass through it.
pub struct FlagCounter {
    count: usize,
}

impl View for FlagCounter {
    type V = nat;

    closed spec fn view(&self) -> nat {
        self.count as nat
    }
}

impl FlagCounter {
    pub fn new() -> (r: FlagCounter)
        ensures
            r@ == 0,
    {
        FlagCounter { count: 0 }
    }

    /// Counts `result` when it is an error and hands it back unchanged.
    pub fn check<T, E>(&mut self, result: Result<T, E>) -> (r: Result<T, E>)
        requires
            result is Err ==> old(self)@ < usize::MAX,
        ensures
            r == result,
            final(self)@ == old(self)@ + if result is Err {
                1nat
            } else {
                0nat
            },
    {
        if result.is_err() {
            self.count = self.count + 1;
        }
        result
    }

    pub fn is_flagged(&self) -> (r: bool)
        ensures
            r == (self@ > 0),
    {
        self.count > 0
    }

    pub fn get_count(&self) -> (r: usize)
        ensures
            r == self@,
    {
        self.count
    }
}

} // verus!
