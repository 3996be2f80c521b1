//! Sample mission memos.
use crate::entities::MissionMemo;
use crate::ids::{new_v4_id, uuid_version, Id};
use crate::time::{current_time, is_clock_reading, utc_date, utc_date_of, Timestamp};
use vstd::prelude::*;

verus! {

/// An unarchived, unaccomplished mission memo of `user_id` titled "mission_memo"
/// with text "text", dated today (UTC), with a fresh version 4 id, created now.
pub fn mission_memo(user_id: Id) -> (r: MissionMemo)
    ensures
        uuid_version(r.id) == 4,
        r.user_id == user_id,
        r.title@ == "mission_memo"@,
        r.text@ == "text"@,
        r.date == utc_date_of(r.created_at),
        !r.archived,
        r.accomplished_at is None,
        r.updated_at == r.created_at,
        is_clock_reading(r.created_at),
{
    let now = current_time();
    MissionMemo {
        id: new_v4_id(),
        title: "mission_memo".to_string(),
        text: "text".to_string(),
        date: utc_date(now),
        archived: false,
        accomplished_at: None,
        user_id,
        created_at: now,
        updated_at: now,
    }
}

/// `x` with its title set to `title`.
pub open spec fn mission_memo_with_title(x: MissionMemo, title: String) -> MissionMemo {
    MissionMemo { title, ..x }
}

/// `x` with its archived set to `archived`.
pub open spec fn mission_memo_with_archived(x: MissionMemo, archived: bool) -> MissionMemo {
    MissionMemo { archived, ..x }
}

/// `x` with its accomplished at set to `accomplished_at`.
pub open spec fn mission_memo_with_accomplished_at(x: MissionMemo, accomplished_at: Option<Timestamp>) -> MissionMemo {
    MissionMemo { accomplished_at, ..x }
}

pub trait MissionMemoFactory {
    fn title(self, title: String) -> MissionMemo;

    fn archived(self, archived: bool) -> MissionMemo;

    fn accomplished_at(self, accomplished_at: Option<Timestamp>) -> MissionMemo;
}

impl MissionMemoFactory for MissionMemo {
    /// The mission memo titled `title`.
    fn title(self, title: String) -> (r: MissionMemo)
        ensures
            r == mission_memo_with_title(self, title),
    {
        MissionMemo { title, ..self }
    }

    /// The mission memo with archived flag `archived`.
    fn archived(self, archived: bool) -> (r: MissionMemo)
        ensures
            r == mission_memo_with_archived(self, archived),
    {
        MissionMemo { archived, ..self }
    }

    /// The mission memo accomplished at `accomplished_at`.
    fn accomplished_at(self, accomplished_at: Option<Timestamp>) -> (r: MissionMemo)
        ensures
            r == mission_memo_with_accomplished_at(self, accomplished_at),
    {
        MissionMemo { accomplished_at, ..self }
    }
}

/// Setting a sample's title gives it the value asked for and changes no other
/// field.
pub proof fn lemma_mission_memo_with_title_sets_only_it(x: MissionMemo, title: String)
    ensures
        ({
            let b = mission_memo_with_title(x, title);
            &&& b.title == title
            &&& b.id == x.id
            &&& b.user_id == x.user_id
            &&& b.text == x.text
            &&& b.date == x.date
            &&& b.archived == x.archived
            &&& b.accomplished_at == x.accomplished_at
            &&& b.created_at == x.created_at
            &&& b.updated_at == x.updated_at
        }),
{
}

/// Setting a sample's archived gives it the value asked for and changes no other
/// field.
pub proof fn lemma_mission_memo_with_archived_sets_only_it(x: MissionMemo, archived: bool)
    ensures
        ({
            let b = mission_memo_with_archived(x, archived);
            &&& b.archived == archived
            &&& b.id == x.id
            &&& b.user_id == x.user_id
            &&& b.title == x.title
            &&& b.text == x.text
            &&& b.date == x.date
            &&& b.accomplished_at == x.accomplished_at
            &&& b.created_at == x.created_at
            &&& b.updated_at == x.updated_at
        }),
{
}

/// Setting a sample's accomplished at gives it the value asked for and changes no other
/// field.
pub proof fn lemma_mission_memo_with_accomplished_at_sets_only_it(x: MissionMemo, accomplished_at: Option<Timestamp>)
    ensures
        ({
            let b = mission_memo_with_accomplished_at(x, accomplished_at);
            &&& b.accomplished_at == accomplished_at
            &&& b.id == x.id
            &&& b.user_id == x.user_id
            &&& b.title == x.title
            &&& b.text == x.text
            &&& b.date == x.date
            &&& b.archived == x.archived
            &&& b.created_at == x.created_at
            &&& b.updated_at == x.updated_at
        }),
{
}

} // verus!
