//! Looking up challenges.
use crate::entities::Challenge;
use crate::error::{found_or_not_found, require_found, CustomDbErr};
use vstd::prelude::*;

verus! {

pub struct ChallengeQuery;

impl ChallengeQuery {
    /// The challenge that the lookup by id and owner found, or `NotFound`.
    pub fn find_by_id_and_user_id(found: Option<Challenge>) -> (r: Result<Challenge, CustomDbErr>)
        ensures
            r == found_or_not_found(found),
    {
        require_found(found)
    }
}

} // verus!
