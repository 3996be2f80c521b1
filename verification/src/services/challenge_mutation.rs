//! Creating, editing, archiving, accomplishing and deleting challenges.
use crate::entities::{Challenge, Date};
use crate::error::{found_or_not_found, CustomDbErr};
use crate::ids::{new_v4_id, uuid_version, Id};
use crate::time::{current_time, is_clock_reading, Timestamp};
use vstd::prelude::*;

verus! {

/// What a user gives to create a challenge.
#[derive(Clone, Debug, PartialEq, Eq)]
pub struct NewChallenge {
    pub title: String,
    pub text: String,
    pub date: Date,
    pub tag_ids: Vec<Id>,
    pub user_id: Id,
}

/// A partial edit of challenge `id`: each field given replaces the stored one; a
/// tag list, when given, becomes the challenge's tags.
#[derive(Clone, Debug, PartialEq, Eq)]
pub struct UpdateChallenge {
    pub id: Id,
    pub title: Option<String>,
    pub text: Option<String>,
    pub date: Option<Date>,
    pub tag_ids: Option<Vec<Id>>,
    pub user_id: Id,
}

/// The challenge created from `form` under `id` at `now`: neither archived nor
/// accomplished.
pub open spec fn new_challenge(form: NewChallenge, id: Id, now: Timestamp) -> Challenge {
    Challenge {
        id,
        user_id: form.user_id,
        title: form.title,
        text: form.text,
        date: form.date,
        archived: false,
        accomplished_at: None,
        created_at: now,
        updated_at: now,
    }
}

/// `c` with the fields that `form` gives replaced, stamped with `now`.
pub open spec fn edited_challenge(c: Challenge, form: UpdateChallenge, now: Timestamp) -> Challenge {
    Challenge {
        title: match form.title {
            Some(t) => t,
            None => c.title,
        },
        text: match form.text {
            Some(t) => t,
            None => c.text,
        },
        date: match form.date {
            Some(d) => d,
            None => c.date,
        },
        updated_at: now,
        ..c
    }
}

/// `c` archived at `now`.
pub open spec fn archived_challenge(c: Challenge, now: Timestamp) -> Challenge {
    Challenge { archived: true, updated_at: now, ..c }
}

/// `c` accomplished at `accomplished_at` and stamped with `now`.
pub open spec fn accomplished_challenge(c: Challenge, accomplished_at: Timestamp, now: Timestamp) -> Challenge {
    Challenge { accomplished_at: Some(accomplished_at), updated_at: now, ..c }
}

pub struct ChallengeMutation;

impl ChallengeMutation {
    /// The challenge to insert for `form`, under a fresh version 4 id and stamped
    /// with the current time, and the tags to link to it (those of `form`, in
    /// order).
    pub fn create(form: NewChallenge) -> (r: (Challenge, Vec<Id>))
        ensures
            r.0 == new_challenge(form, r.0.id, r.0.created_at),
            r.1@ == form.tag_ids@,
            uuid_version(r.0.id) == 4,
            is_clock_reading(r.0.created_at),
    {
        let now = current_time();
        let challenge = Challenge {
            id: new_v4_id(),
            user_id: form.user_id,
            title: form.title,
            text: form.text,
            date: form.date,
            archived: false,
            accomplished_at: None,
            created_at: now,
            updated_at: now,
        };
        (challenge, form.tag_ids)
    }

    /// The found challenge with the fields of `form` applied and stamped with the
    /// current time, together with the tag list of `form` still to be made the
    /// challenge's tags; `NotFound` when the lookup found none.
    pub fn partial_update(found: Option<Challenge>, form: UpdateChallenge) -> (r: Result<
        (Challenge, Option<Vec<Id>>),
        CustomDbErr,
    >)
        ensures
            found is None ==> r == Err::<(Challenge, Option<Vec<Id>>), CustomDbErr>(
                CustomDbErr::NotFound,
            ),
            found matches Some(c) ==> r matches Ok(res) && res.0 == edited_challenge(
                c,
                form,
                res.0.updated_at,
            ) && is_clock_reading(res.0.updated_at) && res.1 == form.tag_ids,
    {
        match found {
            None => Err(CustomDbErr::NotFound),
            Some(c) => {
                let title = match form.title {
                    Some(t) => t,
                    None => c.title,
                };
                let text = match form.text {
                    Some(t) => t,
                    None => c.text,
                };
                let date = match form.date {
                    Some(d) => d,
                    None => c.date,
                };
                let now = current_time();
                Ok((Challenge { title, text, date, updated_at: now, ..c }, form.tag_ids))
            },
        }
    }

    /// The challenge to delete: the found one, or `NotFound`.
    pub fn delete(found: Option<Challenge>) -> (r: Result<Challenge, CustomDbErr>)
        ensures
            r == found_or_not_found(found),
    {
        match found {
            Some(c) => Ok(c),
            None => Err(CustomDbErr::NotFound),
        }
    }

    /// The found challenge, archived and stamped with the current time;
    /// `NotFound` when the lookup found none.
    pub fn archive(found: Option<Challenge>) -> (r: Result<Challenge, CustomDbErr>)
        ensures
            found is None ==> r == Err::<Challenge, CustomDbErr>(CustomDbErr::NotFound),
            found matches Some(c) ==> r matches Ok(b) && b == archived_challenge(c, b.updated_at)
                && is_clock_reading(b.updated_at),
    {
        match found {
            None => Err(CustomDbErr::NotFound),
            Some(c) => Ok(Challenge { archived: true, updated_at: current_time(), ..c }),
        }
    }

    /// The found challenge, marked accomplished at one reading of the clock and
    /// stamped with a second one; `NotFound` when the lookup found none.
    pub fn mark_accomplished(found: Option<Challenge>) -> (r: Result<Challenge, CustomDbErr>)
        ensures
            found is None ==> r == Err::<Challenge, CustomDbErr>(CustomDbErr::NotFound),
            found matches Some(c) ==> r matches Ok(b) && b.accomplished_at is Some && b == accomplished_challenge(
                c,
                b.accomplished_at->0,
                b.updated_at,
            ) && is_clock_reading(b.accomplished_at->0)
                && is_clock_reading(b.updated_at),
    {
        match found {
            None => Err(CustomDbErr::NotFound),
            Some(c) => {
                let accomplished_at = current_time();
                let updated_at = current_time();
                Ok(Challenge { accomplished_at: Some(accomplished_at), updated_at, ..c })
            },
        }
    }
}

/// Whatever it gives, an edit keeps a challenge's id, owner, creation time,
/// archived flag and time of accomplishment.
pub proof fn lemma_edit_keeps_identity(r: Challenge, form: UpdateChallenge, now: Timestamp)
    ensures
        ({
            let b = edited_challenge(r, form, now);
            &&& b.id == r.id
            &&& b.user_id == r.user_id
            &&& b.created_at == r.created_at
            &&& b.archived == r.archived
            &&& b.accomplished_at == r.accomplished_at
        }),
{
}

/// An edit that gives none of title, text and date
/// changes only the update time.
pub proof fn lemma_empty_edit_only_stamps(r: Challenge, form: UpdateChallenge, now: Timestamp)
    requires
        form.title is None,
        form.text is None,
        form.date is None,
    ensures
        edited_challenge(r, form, now) == (Challenge { updated_at: now, ..r }),
{
}

/// Making the same edit twice gives what the second edit alone gives: the
/// challenge equals the once-edited one in every field but its update time.
pub proof fn lemma_repeated_edit_changes_nothing_more(r: Challenge, form: UpdateChallenge, first: Timestamp, second: Timestamp)
    ensures
        edited_challenge(edited_challenge(r, form, first), form, second) == edited_challenge(r, form, second),
        edited_challenge(edited_challenge(r, form, first), form, second) == (Challenge {
            updated_at: second,
            ..edited_challenge(r, form, first)
        }),
{
}

/// A challenge created from a form has the form's owner, title, text and date;
/// it is neither archived nor accomplished, and it is created and last updated
/// at the same time.
pub proof fn lemma_new_keeps_form(form: NewChallenge, id: Id, now: Timestamp)
    ensures
        ({
            let b = new_challenge(form, id, now);
            &&& b.title == form.title
            &&& b.text == form.text
            &&& b.date == form.date
            &&& !b.archived
            &&& b.accomplished_at is None
            &&& b.id == id
            &&& b.user_id == form.user_id
            &&& b.created_at == now
            &&& b.updated_at == now
        }),
{
}

/// An edit sets each field that the form gives to the given value and keeps
/// each field it leaves out; the rest stays but for the update time.
pub proof fn lemma_edit_sets_given_fields(r: Challenge, form: UpdateChallenge, now: Timestamp)
    ensures
        ({
            let b = edited_challenge(r, form, now);
            &&& (form.title matches Some(v) ==> b.title == v)
            &&& (form.title is None ==> b.title == r.title)
            &&& (form.text matches Some(v) ==> b.text == v)
            &&& (form.text is None ==> b.text == r.text)
            &&& (form.date matches Some(v) ==> b.date == v)
            &&& (form.date is None ==> b.date == r.date)
            &&& b.updated_at == now
            &&& b.id == r.id
            &&& b.user_id == r.user_id
            &&& b.archived == r.archived
            &&& b.accomplished_at == r.accomplished_at
            &&& b.created_at == r.created_at
        }),
{
}

/// Archiving a challenge sets its archived flag and changes nothing else but the
/// update time.
pub proof fn lemma_archiving_sets_only_the_flag(c: Challenge, now: Timestamp)
    ensures
        ({
            let b = archived_challenge(c, now);
            &&& b.archived
            &&& b.updated_at == now
            &&& b.id == c.id
            &&& b.user_id == c.user_id
            &&& b.title == c.title
            &&& b.text == c.text
            &&& b.date == c.date
            &&& b.accomplished_at == c.accomplished_at
            &&& b.created_at == c.created_at
        }),
{
}

/// Marking a challenge accomplished records the given time of accomplishment and
/// changes nothing else but the update time.
pub proof fn lemma_accomplishing_sets_only_the_time(c: Challenge, accomplished_at: Timestamp, now: Timestamp)
    ensures
        ({
            let b = accomplished_challenge(c, accomplished_at, now);
            &&& b.accomplished_at == Some(accomplished_at)
            &&& b.updated_at == now
            &&& b.id == c.id
            &&& b.user_id == c.user_id
            &&& b.title == c.title
            &&& b.text == c.text
            &&& b.date == c.date
            &&& b.archived == c.archived
            &&& b.created_at == c.created_at
        }),
{
}

} // verus!
