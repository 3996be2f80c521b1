//! The errors that the services report on their own account.
use vstd::prelude::*;

verus! {

/// A service's own error: the record asked for is not one of the user's, or a
/// write clashed with a stored record.
#[derive(Clone, Copy, Debug, PartialEq, Eq, Structural)]
pub enum CustomDbErr {
    NotFound,
    Duplicate,
}

/// The record that a lookup found, or `NotFound` when it found none.
pub open spec fn found_or_not_found<T>(found: Option<T>) -> Result<T, CustomDbErr> {
    match found {
        Some(x) => Ok(x),
        None => Err(CustomDbErr::NotFound),
    }
}

/// The record that a lookup by id and owner found, or `NotFound`.
pub fn require_found<T>(found: Option<T>) -> (r: Result<T, CustomDbErr>)
    ensures
        r == found_or_not_found(found),
{
    match found {
        Some(x) => Ok(x),
        None => Err(CustomDbErr::NotFound),
    }
}

/// A lookup's outcome is the record it found, and `NotFound` exactly when it found
/// none.
pub proof fn lemma_found_or_not_found<T>(found: Option<T>)
    ensures
        ({
            let r = found_or_not_found(found);
            &&& (found matches Some(x) ==> r == Ok::<T, CustomDbErr>(x))
            &&& (found is None ==> r == Err::<T, CustomDbErr>(CustomDbErr::NotFound))
        }),
{
}


} // verus!
