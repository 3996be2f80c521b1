//! Looking up action tracks.
use crate::entities::ActionTrack;
use crate::error::{found_or_not_found, require_found, CustomDbErr};
use crate::time::Timestamp;
use vstd::prelude::*;

verus! {

/// Which of a user's tracks a listing shows: those started in the given bounds,
/// running ones (no end yet) if `show_active`, ended ones if `show_inactive`,
/// grouped by action when `for_daily_aggregation`.
#[derive(Clone, Debug, PartialEq, Eq)]
pub struct ActionTrackQueryFilters {
    pub started_at_gte: Option<Timestamp>,
    pub started_at_lte: Option<Timestamp>,
    pub show_active: bool,
    pub show_inactive: bool,
    pub for_daily_aggregation: bool,
}

pub struct ActionTrackQuery;

impl ActionTrackQuery {
    /// The filters of a plain listing: no bounds on the start, running and ended
    /// tracks alike, not grouped.
    pub fn get_default_filters() -> (r: ActionTrackQueryFilters)
        ensures
            r == (ActionTrackQueryFilters {
                started_at_gte: None,
                started_at_lte: None,
                show_active: true,
                show_inactive: true,
                for_daily_aggregation: false,
            }),
    {
        ActionTrackQueryFilters {
            started_at_gte: None,
            started_at_lte: None,
            show_active: true,
            show_inactive: true,
            for_daily_aggregation: false,
        }
    }

    /// The track that the lookup by id and owner found, or `NotFound`.
    pub fn find_by_id_and_user_id(found: Option<ActionTrack>) -> (r: Result<ActionTrack, CustomDbErr>)
        ensures
            r == found_or_not_found(found),
    {
        require_found(found)
    }
}

} // verus!
