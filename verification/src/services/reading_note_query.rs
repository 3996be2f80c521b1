//! Looking up reading notes.
use crate::entities::ReadingNote;
use crate::error::{found_or_not_found, require_found, CustomDbErr};
use vstd::prelude::*;

verus! {

pub struct ReadingNoteQuery;

impl ReadingNoteQuery {
    /// The reading note that the lookup by id and owner found, or `NotFound`.
    pub fn find_by_id_and_user_id(found: Option<ReadingNote>) -> (r: Result<ReadingNote, CustomDbErr>)
        ensures
            r == found_or_not_found(found),
    {
        require_found(found)
    }
}

} // verus!
