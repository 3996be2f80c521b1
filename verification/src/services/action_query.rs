//! Looking up actions.
use crate::entities::Action;
use crate::error::{found_or_not_found, require_found, CustomDbErr};
use vstd::prelude::*;

verus! {

pub struct ActionQuery;

impl ActionQuery {
    /// The action that the lookup by id and owner found, or `NotFound`.
    pub fn find_by_id_and_user_id(found: Option<Action>) -> (r: Result<Action, CustomDbErr>)
        ensures
            r == found_or_not_found(found),
    {
        require_found(found)
    }
}

} // verus!
