//! Looking up diary entries.
use crate::entities::Diary;
use crate::error::{found_or_not_found, require_found, CustomDbErr};
use vstd::prelude::*;

verus! {

pub struct DiaryQuery;

impl DiaryQuery {
    /// The diary entry that the lookup by id and owner found, or `NotFound`.
    pub fn find_by_id_and_user_id(found: Option<Diary>) -> (r: Result<Diary, CustomDbErr>)
        ensures
            r == found_or_not_found(found),
    {
        require_found(found)
    }
}

} // verus!
