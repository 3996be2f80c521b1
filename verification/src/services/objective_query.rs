//! Looking up objectives.
use crate::entities::Objective;
use crate::error::{found_or_not_found, require_found, CustomDbErr};
use vstd::prelude::*;

verus! {

pub struct ObjectiveQuery;

impl ObjectiveQuery {
    /// The objective that the lookup by id and owner found, or `NotFound`.
    pub fn find_by_id_and_user_id(found: Option<Objective>) -> (r: Result<Objective, CustomDbErr>)
        ensures
            r == found_or_not_found(found),
    {
        require_found(found)
    }
}

} // verus!
