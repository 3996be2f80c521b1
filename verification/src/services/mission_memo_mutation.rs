//! Creating, editing, archiving, accomplishing and deleting mission memos.
use crate::entities::{MissionMemo, Date};
use crate::error::{found_or_not_found, CustomDbErr};
use crate::ids::{new_v4_id, uuid_version, Id};
use crate::time::{current_time, is_clock_reading, Timestamp};
use vstd::prelude::*;

verus! {

/// What a user gives to create a mission memo.
#[derive(Clone, Debug, PartialEq, Eq)]
pub struct NewMissionMemo {
    pub title: String,
    pub text: String,
    pub date: Date,
    pub tag_ids: Vec<Id>,
    pub user_id: Id,
}

/// A partial edit of mission memo `id`: each field given replaces the stored one; a
/// tag list, when given, becomes the mission memo's tags.
#[derive(Clone, Debug, PartialEq, Eq)]
pub struct UpdateMissionMemo {
    pub id: Id,
    pub title: Option<String>,
    pub text: Option<String>,
    pub date: Option<Date>,
    pub tag_ids: Option<Vec<Id>>,
    pub user_id: Id,
}

/// The mission memo created from `form` under `id` at `now`: neither archived nor
/// accomplished.
pub open spec fn new_mission_memo(form: NewMissionMemo, id: Id, now: Timestamp) -> MissionMemo {
    MissionMemo {
        id,
        user_id: form.user_id,
        title: form.title,
        text: form.text,
        date: form.date,
        archived: false,
        accomplished_at: None,
        created_at: now,
        updated_at: now,
    }
}

/// `c` with the fields that `form` gives replaced, stamped with `now`.
pub open spec fn edited_mission_memo(c: MissionMemo, form: UpdateMissionMemo, now: Timestamp) -> MissionMemo {
    MissionMemo {
        title: match form.title {
            Some(t) => t,
            None => c.title,
        },
        text: match form.text {
            Some(t) => t,
            None => c.text,
        },
        date: match form.date {
            Some(d) => d,
            None => c.date,
        },
        updated_at: now,
        ..c
    }
}

/// `c` archived at `now`.
pub open spec fn archived_mission_memo(c: MissionMemo, now: Timestamp) -> MissionMemo {
    MissionMemo { archived: true, updated_at: now, ..c }
}

/// `c` accomplished at `accomplished_at` and stamped with `now`.
pub open spec fn accomplished_mission_memo(c: MissionMemo, accomplished_at: Timestamp, now: Timestamp) -> MissionMemo {
    MissionMemo { accomplished_at: Some(accomplished_at), updated_at: now, ..c }
}

pub struct MissionMemoMutation;

impl MissionMemoMutation {
    /// The mission memo to insert for `form`, under a fresh version 4 id and stamped
    /// with the current time, and the tags to link to it (those of `form`, in
    /// order).
    pub fn create(form: NewMissionMemo) -> (r: (MissionMemo, Vec<Id>))
        ensures
            r.0 == new_mission_memo(form, r.0.id, r.0.created_at),
            r.1@ == form.tag_ids@,
            uuid_version(r.0.id) == 4,
            is_clock_reading(r.0.created_at),
    {
        let now = current_time();
        let mission_memo = MissionMemo {
            id: new_v4_id(),
            user_id: form.user_id,
            title: form.title,
            text: form.text,
            date: form.date,
            archived: false,
            accomplished_at: None,
            created_at: now,
            updated_at: now,
        };
        (mission_memo, form.tag_ids)
    }

    /// The found mission memo with the fields of `form` applied and stamped with the
    /// current time, together with the tag list of `form` still to be made the
    /// mission memo's tags; `NotFound` when the lookup found none.
    pub fn partial_update(found: Option<MissionMemo>, form: UpdateMissionMemo) -> (r: Result<
        (MissionMemo, Option<Vec<Id>>),
        CustomDbErr,
    >)
        ensures
            found is None ==> r == Err::<(MissionMemo, Option<Vec<Id>>), CustomDbErr>(
                CustomDbErr::NotFound,
            ),
            found matches Some(c) ==> r matches Ok(res) && res.0 == edited_mission_memo(
                c,
                form,
                res.0.updated_at,
            ) && is_clock_reading(res.0.updated_at) && res.1 == form.tag_ids,
    {
        match found {
            None => Err(CustomDbErr::NotFound),
            Some(c) => {
                let title = match form.title {
                    Some(t) => t,
                    None => c.title,
                };
                let text = match form.text {
                    Some(t) => t,
                    None => c.text,
                };
                let date = match form.date {
                    Some(d) => d,
                    None => c.date,
                };
                let now = current_time();
                Ok((MissionMemo { title, text, date, updated_at: now, ..c }, form.tag_ids))
            },
        }
    }

    /// The mission memo to delete: the found one, or `NotFound`.
    pub fn delete(found: Option<MissionMemo>) -> (r: Result<MissionMemo, CustomDbErr>)
        ensures
            r == found_or_not_found(found),
    {
        match found {
            Some(c) => Ok(c),
            None => Err(CustomDbErr::NotFound),
        }
    }

    /// The found mission memo, archived and stamped with the current time;
    /// `NotFound` when the lookup found none.
    pub fn archive(found: Option<MissionMemo>) -> (r: Result<MissionMemo, CustomDbErr>)
        ensures
            found is None ==> r == Err::<MissionMemo, CustomDbErr>(CustomDbErr::NotFound),
            found matches Some(c) ==> r matches Ok(b) && b == archived_mission_memo(c, b.updated_at)
                && is_clock_reading(b.updated_at),
    {
        match found {
            None => Err(CustomDbErr::NotFound),
            Some(c) => Ok(MissionMemo { archived: true, updated_at: current_time(), ..c }),
        }
    }

    /// The found mission memo, marked accomplished at one reading of the clock and
    /// stamped with a second one; `NotFound` when the lookup found none.
    pub fn mark_accomplished(found: Option<MissionMemo>) -> (r: Result<MissionMemo, CustomDbErr>)
        ensures
            found is None ==> r == Err::<MissionMemo, CustomDbErr>(CustomDbErr::NotFound),
            found matches Some(c) ==> r matches Ok(b) && b.accomplished_at is Some && b == accomplished_mission_memo(
                c,
                b.accomplished_at->0,
                b.updated_at,
            ) && is_clock_reading(b.accomplished_at->0)
                && is_clock_reading(b.updated_at),
    {
        match found {
            None => Err(CustomDbErr::NotFound),
            Some(c) => {
                let accomplished_at = current_time();
                let updated_at = current_time();
                Ok(MissionMemo { accomplished_at: Some(accomplished_at), updated_at, ..c })
            },
        }
    }
}

/// Whatever it gives, an edit keeps a mission memo's id, owner, creation time,
/// archived flag and time of accomplishment.
pub proof fn lemma_edit_keeps_identity(r: MissionMemo, form: UpdateMissionMemo, now: Timestamp)
    ensures
        ({
            let b = edited_mission_memo(r, form, now);
            &&& b.id == r.id
            &&& b.user_id == r.user_id
            &&& b.created_at == r.created_at
            &&& b.archived == r.archived
            &&& b.accomplished_at == r.accomplished_at
        }),
{
}

/// An edit that gives none of title, text and date
/// changes only the update time.
pub proof fn lemma_empty_edit_only_stamps(r: MissionMemo, form: UpdateMissionMemo, now: Timestamp)
    requires
        form.title is None,
        form.text is None,
        form.date is None,
    ensures
        edited_mission_memo(r, form, now) == (MissionMemo { updated_at: now, ..r }),
{
}

/// Making the same edit twice gives what the second edit alone gives: the
/// mission memo equals the once-edited one in every field but its update time.
pub proof fn lemma_repeated_edit_changes_nothing_more(r: MissionMemo, form: UpdateMissionMemo, first: Timestamp, second: Timestamp)
    ensures
        edited_mission_memo(edited_mission_memo(r, form, first), form, second) == edited_mission_memo(r, form, second),
        edited_mission_memo(edited_mission_memo(r, form, first), form, second) == (MissionMemo {
            updated_at: second,
            ..edited_mission_memo(r, form, first)
        }),
{
}

/// A mission memo created from a form has the form's owner, title, text and
/// date; it is neither archived nor accomplished, and it is created and last
/// updated at the same time.
pub proof fn lemma_new_keeps_form(form: NewMissionMemo, id: Id, now: Timestamp)
    ensures
        ({
            let b = new_mission_memo(form, id, now);
            &&& b.title == form.title
            &&& b.text == form.text
            &&& b.date == form.date
            &&& !b.archived
            &&& b.accomplished_at is None
            &&& b.id == id
            &&& b.user_id == form.user_id
            &&& b.created_at == now
            &&& b.updated_at == now
        }),
{
}

/// An edit sets each field that the form gives to the given value and keeps
/// each field it leaves out; the rest stays but for the update time.
pub proof fn lemma_edit_sets_given_fields(r: MissionMemo, form: UpdateMissionMemo, now: Timestamp)
    ensures
        ({
            let b = edited_mission_memo(r, form, now);
            &&& (form.title matches Some(v) ==> b.title == v)
            &&& (form.title is None ==> b.title == r.title)
            &&& (form.text matches Some(v) ==> b.text == v)
            &&& (form.text is None ==> b.text == r.text)
            &&& (form.date matches Some(v) ==> b.date == v)
            &&& (form.date is None ==> b.date == r.date)
            &&& b.updated_at == now
            &&& b.id == r.id
            &&& b.user_id == r.user_id
            &&& b.archived == r.archived
            &&& b.accomplished_at == r.accomplished_at
            &&& b.created_at == r.created_at
        }),
{
}

/// Archiving a mission memo sets its archived flag and changes nothing else but the
/// update time.
pub proof fn lemma_archiving_sets_only_the_flag(c: MissionMemo, now: Timestamp)
    ensures
        ({
            let b = archived_mission_memo(c, now);
            &&& b.archived
            &&& b.updated_at == now
            &&& b.id == c.id
            &&& b.user_id == c.user_id
            &&& b.title == c.title
            &&& b.text == c.text
            &&& b.date == c.date
            &&& b.accomplished_at == c.accomplished_at
            &&& b.created_at == c.created_at
        }),
{
}

/// Marking a mission memo accomplished records the given time of accomplishment and
/// changes nothing else but the update time.
pub proof fn lemma_accomplishing_sets_only_the_time(c: MissionMemo, accomplished_at: Timestamp, now: Timestamp)
    ensures
        ({
            let b = accomplished_mission_memo(c, accomplished_at, now);
            &&& b.accomplished_at == Some(accomplished_at)
            &&& b.updated_at == now
            &&& b.id == c.id
            &&& b.user_id == c.user_id
            &&& b.title == c.title
            &&& b.text == c.text
            &&& b.date == c.date
            &&& b.archived == c.archived
            &&& b.created_at == c.created_at
        }),
{
}

} // verus!
