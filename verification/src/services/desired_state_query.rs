//! Looking up desired states.
use crate::entities::DesiredState;
use crate::error::{found_or_not_found, require_found, CustomDbErr};
use vstd::prelude::*;

verus! {

pub struct DesiredStateQuery;

impl DesiredStateQuery {
    /// The desired state that the lookup by id and owner found, or `NotFound`.
    pub fn find_by_id_and_user_id(found: Option<DesiredState>) -> (r: Result<DesiredState, CustomDbErr>)
        ensures
            r == found_or_not_found(found),
    {
        require_found(found)
    }
}

} // verus!
