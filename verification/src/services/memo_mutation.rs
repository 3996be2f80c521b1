//! Creating, editing and deleting memos.
use crate::entities::{Date, Memo};
use crate::error::{found_or_not_found, CustomDbErr};
use crate::ids::{new_v4_id, uuid_version, Id};
use crate::time::{current_time, is_clock_reading, Timestamp};
use vstd::prelude::*;

verus! {

/// What a user gives to create a memo.
#[derive(Clone, Debug, PartialEq, Eq)]
pub struct NewMemo {
    pub title: String,
    pub text: String,
    pub date: Date,
    pub tag_ids: Vec<Id>,
    pub user_id: Id,
}

/// A partial edit of memo `id`: each field given replaces the stored one; a tag
/// list, when given, becomes the memo's tags.
#[derive(Clone, Debug, PartialEq, Eq)]
pub struct UpdateMemo {
    pub id: Id,
    pub title: Option<String>,
    pub text: Option<String>,
    pub date: Option<Date>,
    pub favorite: Option<bool>,
    pub tag_ids: Option<Vec<Id>>,
    pub user_id: Id,
}

/// The memo created from `form` under id `id` at time `now`: neither favorite
/// nor archived.
pub open spec fn new_memo(form: NewMemo, id: Id, now: Timestamp) -> Memo {
    Memo {
        id,
        user_id: form.user_id,
        title: form.title,
        text: form.text,
        date: form.date,
        favorite: false,
        archived: false,
        created_at: now,
        updated_at: now,
    }
}

/// `m` with the fields that `form` gives replaced, stamped with `now`.
pub open spec fn edited_memo(m: Memo, form: UpdateMemo, now: Timestamp) -> Memo {
    Memo {
        title: match form.title {
            Some(t) => t,
            None => m.title,
        },
        text: match form.text {
            Some(t) => t,
            None => m.text,
        },
        date: match form.date {
            Some(d) => d,
            None => m.date,
        },
        favorite: match form.favorite {
            Some(f) => f,
            None => m.favorite,
        },
        updated_at: now,
        ..m
    }
}

pub struct MemoMutation;

impl MemoMutation {
    /// The memo to insert for `form`, under a fresh version 4 id and stamped with
    /// the current time, and the tags to link to it (those of `form`, in order).
    pub fn create(form: NewMemo) -> (r: (Memo, Vec<Id>))
        ensures
            r.0 == new_memo(form, r.0.id, r.0.created_at),
            r.1@ == form.tag_ids@,
            uuid_version(r.0.id) == 4,
            is_clock_reading(r.0.created_at),
    {
        let now = current_time();
        let memo = Memo {
            id: new_v4_id(),
            user_id: form.user_id,
            title: form.title,
            text: form.text,
            date: form.date,
            favorite: false,
            archived: false,
            created_at: now,
            updated_at: now,
        };
        (memo, form.tag_ids)
    }

    /// The found memo with the fields of `form` applied and stamped with the
    /// current time, together with the tag list of `form` still to be made the
    /// memo's tags; `NotFound` when the lookup found none.
    pub fn partial_update(found: Option<Memo>, form: UpdateMemo) -> (r: Result<
        (Memo, Option<Vec<Id>>),
        CustomDbErr,
    >)
        ensures
            found is None ==> r == Err::<(Memo, Option<Vec<Id>>), CustomDbErr>(
                CustomDbErr::NotFound,
            ),
            found matches Some(m) ==> r matches Ok(res) && res.0 == edited_memo(
                m,
                form,
                res.0.updated_at,
            ) && is_clock_reading(res.0.updated_at) && res.1 == form.tag_ids,
    {
        match found {
            None => Err(CustomDbErr::NotFound),
            Some(m) => {
                let title = match form.title {
                    Some(t) => t,
                    None => m.title,
                };
                let text = match form.text {
                    Some(t) => t,
                    None => m.text,
                };
                let date = match form.date {
                    Some(d) => d,
                    None => m.date,
                };
                let favorite = match form.favorite {
                    Some(f) => f,
                    None => m.favorite,
                };
                let now = current_time();
                Ok((Memo { title, text, date, favorite, updated_at: now, ..m }, form.tag_ids))
            },
        }
    }

    /// The memo to delete: the found one, or `NotFound`.
    pub fn delete(found: Option<Memo>) -> (r: Result<Memo, CustomDbErr>)
        ensures
            r == found_or_not_found(found),
    {
        match found {
            Some(m) => Ok(m),
            None => Err(CustomDbErr::NotFound),
        }
    }
}

/// Whatever it gives, an edit keeps a memo's id, owner, creation time and
/// archived flag.
pub proof fn lemma_edit_keeps_identity(r: Memo, form: UpdateMemo, now: Timestamp)
    ensures
        ({
            let b = edited_memo(r, form, now);
            &&& b.id == r.id
            &&& b.user_id == r.user_id
            &&& b.created_at == r.created_at
            &&& b.archived == r.archived
        }),
{
}

/// An edit that gives none of title, text, date and favorite
/// changes only the update time.
pub proof fn lemma_empty_edit_only_stamps(r: Memo, form: UpdateMemo, now: Timestamp)
    requires
        form.title is None,
        form.text is None,
        form.date is None,
        form.favorite is None,
    ensures
        edited_memo(r, form, now) == (Memo { updated_at: now, ..r }),
{
}

/// Making the same edit twice gives what the second edit alone gives: the
/// memo equals the once-edited one in every field but its update time.
pub proof fn lemma_repeated_edit_changes_nothing_more(r: Memo, form: UpdateMemo, first: Timestamp, second: Timestamp)
    ensures
        edited_memo(edited_memo(r, form, first), form, second) == edited_memo(r, form, second),
        edited_memo(edited_memo(r, form, first), form, second) == (Memo {
            updated_at: second,
            ..edited_memo(r, form, first)
        }),
{
}

/// A memo created from a form has the form's owner, title, text and date; it is
/// neither favorite nor archived, and it is created and last updated at the
/// same time.
pub proof fn lemma_new_keeps_form(form: NewMemo, id: Id, now: Timestamp)
    ensures
        ({
            let b = new_memo(form, id, now);
            &&& b.title == form.title
            &&& b.text == form.text
            &&& b.date == form.date
            &&& !b.favorite
            &&& !b.archived
            &&& b.id == id
            &&& b.user_id == form.user_id
            &&& b.created_at == now
            &&& b.updated_at == now
        }),
{
}

/// An edit sets each field that the form gives to the given value and keeps
/// each field it leaves out; the rest stays but for the update time.
pub proof fn lemma_edit_sets_given_fields(r: Memo, form: UpdateMemo, now: Timestamp)
    ensures
        ({
            let b = edited_memo(r, form, now);
            &&& (form.title matches Some(v) ==> b.title == v)
            &&& (form.title is None ==> b.title == r.title)
            &&& (form.text matches Some(v) ==> b.text == v)
            &&& (form.text is None ==> b.text == r.text)
            &&& (form.date matches Some(v) ==> b.date == v)
            &&& (form.date is None ==> b.date == r.date)
            &&& (form.favorite matches Some(v) ==> b.favorite == v)
            &&& (form.favorite is None ==> b.favorite == r.favorite)
            &&& b.updated_at == now
            &&& b.id == r.id
            &&& b.user_id == r.user_id
            &&& b.archived == r.archived
            &&& b.created_at == r.created_at
        }),
{
}

} // verus!
