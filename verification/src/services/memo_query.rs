//! Looking up memos.
use crate::entities::Memo;
use crate::error::{found_or_not_found, require_found, CustomDbErr};
use vstd::prelude::*;

verus! {

pub struct MemoQuery;

impl MemoQuery {
    /// The memo that the lookup by id and owner found, or `NotFound`.
    pub fn find_by_id_and_user_id(found: Option<Memo>) -> (r: Result<Memo, CustomDbErr>)
        ensures
            r == found_or_not_found(found),
    {
        require_found(found)
    }
}

} // verus!
