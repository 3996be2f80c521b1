//! Creating, editing and deleting reading notes.
use crate::entities::{ReadingNote, Date};
use crate::error::{found_or_not_found, CustomDbErr};
use crate::ids::{now_v7_id, uuid_version, Id};
use crate::time::{current_time, is_clock_reading, Timestamp};
use vstd::prelude::*;

verus! {

/// What a user gives to create a reading note.
#[derive(Clone, Debug, PartialEq, Eq)]
pub struct NewReadingNote {
    pub title: String,
    pub page_number: i16,
    pub text: String,
    pub date: Date,
    pub tag_ids: Vec<Id>,
    pub user_id: Id,
}

/// A partial edit of reading note `id`: each field given replaces the stored
/// one; a tag list, when given, becomes the note's tags.
#[derive(Clone, Debug, PartialEq, Eq)]
pub struct UpdateReadingNote {
    pub id: Id,
    pub title: Option<String>,
    pub page_number: Option<i16>,
    pub text: Option<String>,
    pub date: Option<Date>,
    pub tag_ids: Option<Vec<Id>>,
    pub user_id: Id,
}

/// The reading note created from `form` under `id` at `now`.
pub open spec fn new_reading_note(form: NewReadingNote, id: Id, now: Timestamp) -> ReadingNote {
    ReadingNote {
        id,
        user_id: form.user_id,
        title: form.title,
        page_number: form.page_number,
        text: form.text,
        date: form.date,
        created_at: now,
        updated_at: now,
    }
}

/// `b` with the fields that `form` gives replaced, stamped with `now`.
pub open spec fn edited_reading_note(b: ReadingNote, form: UpdateReadingNote, now: Timestamp) -> ReadingNote {
    ReadingNote {
        title: match form.title {
            Some(t) => t,
            None => b.title,
        },
        page_number: match form.page_number {
            Some(p) => p,
            None => b.page_number,
        },
        text: match form.text {
            Some(t) => t,
            None => b.text,
        },
        date: match form.date {
            Some(d) => d,
            None => b.date,
        },
        updated_at: now,
        ..b
    }
}

pub struct ReadingNoteMutation;

impl ReadingNoteMutation {
    /// The reading note to insert for `form`, under a fresh version 7 id and
    /// stamped with the current time, and the tags to link to it (those of
    /// `form`, in order).
    pub fn create(form: NewReadingNote) -> (r: (ReadingNote, Vec<Id>))
        ensures
            r.0 == new_reading_note(form, r.0.id, r.0.created_at),
            r.1@ == form.tag_ids@,
            uuid_version(r.0.id) == 7,
            is_clock_reading(r.0.created_at),
    {
        let now = current_time();
        let note = ReadingNote {
            id: now_v7_id(),
            user_id: form.user_id,
            title: form.title,
            page_number: form.page_number,
            text: form.text,
            date: form.date,
            created_at: now,
            updated_at: now,
        };
        (note, form.tag_ids)
    }

    /// The found reading note with the fields of `form` applied and stamped with
    /// the current time, together with the tag list of `form` still to be made the
    /// note's tags; `NotFound` when the lookup found none.
    pub fn partial_update(found: Option<ReadingNote>, form: UpdateReadingNote) -> (r: Result<
        (ReadingNote, Option<Vec<Id>>),
        CustomDbErr,
    >)
        ensures
            found is None ==> r == Err::<(ReadingNote, Option<Vec<Id>>), CustomDbErr>(
                CustomDbErr::NotFound,
            ),
            found matches Some(b) ==> r matches Ok(res) && res.0 == edited_reading_note(
                b,
                form,
                res.0.updated_at,
            ) && is_clock_reading(res.0.updated_at) && res.1 == form.tag_ids,
    {
        match found {
            None => Err(CustomDbErr::NotFound),
            Some(b) => {
                let title = match form.title {
                    Some(t) => t,
                    None => b.title,
                };
                let page_number = match form.page_number {
                    Some(p) => p,
                    None => b.page_number,
                };
                let text = match form.text {
                    Some(t) => t,
                    None => b.text,
                };
                let date = match form.date {
                    Some(d) => d,
                    None => b.date,
                };
                let now = current_time();
                Ok((ReadingNote { title, page_number, text, date, updated_at: now, ..b }, form.tag_ids))
            },
        }
    }

    /// The reading note to delete: the found one, or `NotFound`.
    pub fn delete(found: Option<ReadingNote>) -> (r: Result<ReadingNote, CustomDbErr>)
        ensures
            r == found_or_not_found(found),
    {
        match found {
            Some(b) => Ok(b),
            None => Err(CustomDbErr::NotFound),
        }
    }
}

/// Whatever it gives, an edit keeps a reading note's id, owner and creation
/// time.
pub proof fn lemma_edit_keeps_identity(r: ReadingNote, form: UpdateReadingNote, now: Timestamp)
    ensures
        ({
            let b = edited_reading_note(r, form, now);
            &&& b.id == r.id
            &&& b.user_id == r.user_id
            &&& b.created_at == r.created_at

        }),
{
}

/// An edit that gives none of title, page number, text and date
/// changes only the update time.
pub proof fn lemma_empty_edit_only_stamps(r: ReadingNote, form: UpdateReadingNote, now: Timestamp)
    requires
        form.title is None,
        form.page_number is None,
        form.text is None,
        form.date is None,
    ensures
        edited_reading_note(r, form, now) == (ReadingNote { updated_at: now, ..r }),
{
}

/// Making the same edit twice gives what the second edit alone gives: the
/// reading note equals the once-edited one in every field but its update time.
pub proof fn lemma_repeated_edit_changes_nothing_more(r: ReadingNote, form: UpdateReadingNote, first: Timestamp, second: Timestamp)
    ensures
        edited_reading_note(edited_reading_note(r, form, first), form, second) == edited_reading_note(r, form, second),
        edited_reading_note(edited_reading_note(r, form, first), form, second) == (ReadingNote {
            updated_at: second,
            ..edited_reading_note(r, form, first)
        }),
{
}

/// A reading note created from a form has the form's owner, title, page number,
/// text and date; it is created and last updated at the same time.
pub proof fn lemma_new_keeps_form(form: NewReadingNote, id: Id, now: Timestamp)
    ensures
        ({
            let b = new_reading_note(form, id, now);
            &&& b.title == form.title
            &&& b.page_number == form.page_number
            &&& b.text == form.text
            &&& b.date == form.date
            &&& b.id == id
            &&& b.user_id == form.user_id
            &&& b.created_at == now
            &&& b.updated_at == now
        }),
{
}

/// An edit sets each field that the form gives to the given value and keeps
/// each field it leaves out; the rest stays but for the update time.
pub proof fn lemma_edit_sets_given_fields(r: ReadingNote, form: UpdateReadingNote, now: Timestamp)
    ensures
        ({
            let b = edited_reading_note(r, form, now);
            &&& (form.title matches Some(v) ==> b.title == v)
            &&& (form.title is None ==> b.title == r.title)
            &&& (form.page_number matches Some(v) ==> b.page_number == v)
            &&& (form.page_number is None ==> b.page_number == r.page_number)
            &&& (form.text matches Some(v) ==> b.text == v)
            &&& (form.text is None ==> b.text == r.text)
            &&& (form.date matches Some(v) ==> b.date == v)
            &&& (form.date is None ==> b.date == r.date)
            &&& b.updated_at == now
            &&& b.id == r.id
            &&& b.user_id == r.user_id
            &&& b.created_at == r.created_at
        }),
{
}

} // verus!
