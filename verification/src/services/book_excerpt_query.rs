//! Looking up book excerpts.
use crate::entities::BookExcerpt;
use crate::error::{found_or_not_found, require_found, CustomDbErr};
use vstd::prelude::*;

verus! {

pub struct BookExcerptQuery;

impl BookExcerptQuery {
    /// The book excerpt that the lookup by id and owner found, or `NotFound`.
    pub fn find_by_id_and_user_id(found: Option<BookExcerpt>) -> (r: Result<BookExcerpt, CustomDbErr>)
        ensures
            r == found_or_not_found(found),
    {
        require_found(found)
    }
}

} // verus!
