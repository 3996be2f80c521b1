//! Looking up ambitions.
use crate::entities::Ambition;
use crate::error::{found_or_not_found, require_found, CustomDbErr};
use vstd::prelude::*;

verus! {

pub struct AmbitionQuery;

impl AmbitionQuery {
    /// The ambition that the lookup by id and owner found, or `NotFound`.
    pub fn find_by_id_and_user_id(found: Option<Ambition>) -> (r: Result<Ambition, CustomDbErr>)
        ensures
            r == found_or_not_found(found),
    {
        require_found(found)
    }
}

} // verus!
