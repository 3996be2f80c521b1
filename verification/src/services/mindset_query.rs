//! Looking up mindsets.
use crate::entities::Mindset;
use crate::error::{found_or_not_found, require_found, CustomDbErr};
use vstd::prelude::*;

verus! {

pub struct MindsetQuery;

impl MindsetQuery {
    /// The mindset that the lookup by id and owner found, or `NotFound`.
    pub fn find_by_id_and_user_id(found: Option<Mindset>) -> (r: Result<Mindset, CustomDbErr>)
        ensures
            r == found_or_not_found(found),
    {
        require_found(found)
    }
}

} // verus!
