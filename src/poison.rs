use vstd::prelude::*;
use std::sync::PoisonError;

verus! {

#[verifier::external_type_specification]
#[verifier::external_body]
#[verifier::reject_recursive_types(T)]
pub struct ExPoisonError<T>(PoisonError<T>);

/// Access to the value behind a lock that no earlier holder left poisoned by
/// panicking. A poisoned lock is a broken invariant of the program: callers
/// test for it and fail before asking for the value.
pub trait IgnorePoisoned<T>: Sized {
    /// The value when the lock was not poisoned.
    spec fn unpoisoned(&self) -> Option<T>;

    /// The value that came with the lock.
    fn ignore_poisoned(self) -> (r: T)
        requires
            self.unpoisoned() is Some,
        ensures
            self.unpoisoned() == Some(r),
    ;
}

impl<T> IgnorePoisoned<T> for Result<T, PoisonError<T>> {
    open spec fn unpoisoned(&self) -> Option<T> {
        match self {
            Ok(v) => Some(*v),
            Err(_) => None,
        }
    }

    fn ignore_poisoned(self) -> (r: T) {
        match self {
            Ok(v) => v,
            Err(_) => unreached(),
        }
    }
}

} // verus!
