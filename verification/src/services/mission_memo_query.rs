//! Looking up mission memos.
use crate::entities::MissionMemo;
use crate::error::{found_or_not_found, require_found, CustomDbErr};
use vstd::prelude::*;

verus! {

pub struct MissionMemoQuery;

impl MissionMemoQuery {
    /// The mission memo that the lookup by id and owner found, or `NotFound`.
    pub fn find_by_id_and_user_id(found: Option<MissionMemo>) -> (r: Result<MissionMemo, CustomDbErr>)
        ensures
            r == found_or_not_found(found),
    {
        require_found(found)
    }
}

} // verus!
