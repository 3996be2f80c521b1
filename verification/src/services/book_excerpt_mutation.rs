//! Creating, editing and deleting book excerpts.
use crate::entities::{BookExcerpt, Date};
use crate::error::{found_or_not_found, CustomDbErr};
use crate::ids::{new_v4_id, uuid_version, Id};
use crate::time::{current_time, is_clock_reading, Timestamp};
use vstd::prelude::*;

verus! {

/// What a user gives to create a book excerpt.
#[derive(Clone, Debug, PartialEq, Eq)]
pub struct NewBookExcerpt {
    pub title: String,
    pub page_number: i16,
    pub text: String,
    pub date: Date,
    pub tag_ids: Vec<Id>,
    pub user_id: Id,
}

/// A partial edit of book excerpt `id`: each field given replaces the stored
/// one; a tag list, when given, becomes the excerpt's tags.
#[derive(Clone, Debug, PartialEq, Eq)]
pub struct UpdateBookExcerpt {
    pub id: Id,
    pub title: Option<String>,
    pub page_number: Option<i16>,
    pub text: Option<String>,
    pub date: Option<Date>,
    pub tag_ids: Option<Vec<Id>>,
    pub user_id: Id,
}

/// The book excerpt created from `form` under `id` at `now`.
pub open spec fn new_book_excerpt(form: NewBookExcerpt, id: Id, now: Timestamp) -> BookExcerpt {
    BookExcerpt {
        id,
        user_id: form.user_id,
        title: form.title,
        page_number: form.page_number,
        text: form.text,
        date: form.date,
        created_at: now,
        updated_at: now,
    }
}

/// `b` with the fields that `form` gives replaced, stamped with `now`.
pub open spec fn edited_book_excerpt(b: BookExcerpt, form: UpdateBookExcerpt, now: Timestamp) -> BookExcerpt {
    BookExcerpt {
        title: match form.title {
            Some(t) => t,
            None => b.title,
        },
        page_number: match form.page_number {
            Some(p) => p,
            None => b.page_number,
        },
        text: match form.text {
            Some(t) => t,
            None => b.text,
        },
        date: match form.date {
            Some(d) => d,
            None => b.date,
        },
        updated_at: now,
        ..b
    }
}

pub struct BookExcerptMutation;

impl BookExcerptMutation {
    /// The book excerpt to insert for `form`, under a fresh version 4 id and
    /// stamped with the current time, and the tags to link to it (those of
    /// `form`, in order).
    pub fn create(form: NewBookExcerpt) -> (r: (BookExcerpt, Vec<Id>))
        ensures
            r.0 == new_book_excerpt(form, r.0.id, r.0.created_at),
            r.1@ == form.tag_ids@,
            uuid_version(r.0.id) == 4,
            is_clock_reading(r.0.created_at),
    {
        let now = current_time();
        let excerpt = BookExcerpt {
            id: new_v4_id(),
            user_id: form.user_id,
            title: form.title,
            page_number: form.page_number,
            text: form.text,
            date: form.date,
            created_at: now,
            updated_at: now,
        };
        (excerpt, form.tag_ids)
    }

    /// The found book excerpt with the fields of `form` applied and stamped with
    /// the current time, together with the tag list of `form` still to be made the
    /// excerpt's tags; `NotFound` when the lookup found none.
    pub fn partial_update(found: Option<BookExcerpt>, form: UpdateBookExcerpt) -> (r: Result<
        (BookExcerpt, Option<Vec<Id>>),
        CustomDbErr,
    >)
        ensures
            found is None ==> r == Err::<(BookExcerpt, Option<Vec<Id>>), CustomDbErr>(
                CustomDbErr::NotFound,
            ),
            found matches Some(b) ==> r matches Ok(res) && res.0 == edited_book_excerpt(
                b,
                form,
                res.0.updated_at,
            ) && is_clock_reading(res.0.updated_at) && res.1 == form.tag_ids,
    {
        match found {
            None => Err(CustomDbErr::NotFound),
            Some(b) => {
                let title = match form.title {
                    Some(t) => t,
                    None => b.title,
                };
                let page_number = match form.page_number {
                    Some(p) => p,
                    None => b.page_number,
                };
                let text = match form.text {
                    Some(t) => t,
                    None => b.text,
                };
                let date = match form.date {
                    Some(d) => d,
                    None => b.date,
                };
                let now = current_time();
                Ok((BookExcerpt { title, page_number, text, date, updated_at: now, ..b }, form.tag_ids))
            },
        }
    }

    /// The book excerpt to delete: the found one, or `NotFound`.
    pub fn delete(found: Option<BookExcerpt>) -> (r: Result<BookExcerpt, CustomDbErr>)
        ensures
            r == found_or_not_found(found),
    {
        match found {
            Some(b) => Ok(b),
            None => Err(CustomDbErr::NotFound),
        }
    }
}

/// Whatever it gives, an edit keeps a book excerpt's id, owner and creation
/// time.
pub proof fn lemma_edit_keeps_identity(r: BookExcerpt, form: UpdateBookExcerpt, now: Timestamp)
    ensures
        ({
            let b = edited_book_excerpt(r, form, now);
            &&& b.id == r.id
            &&& b.user_id == r.user_id
            &&& b.created_at == r.created_at

        }),
{
}

/// An edit that gives none of title, page number, text and date
/// changes only the update time.
pub proof fn lemma_empty_edit_only_stamps(r: BookExcerpt, form: UpdateBookExcerpt, now: Timestamp)
    requires
        form.title is None,
        form.page_number is None,
        form.text is None,
        form.date is None,
    ensures
        edited_book_excerpt(r, form, now) == (BookExcerpt { updated_at: now, ..r }),
{
}

/// Making the same edit twice gives what the second edit alone gives: the
/// book excerpt equals the once-edited one in every field but its update time.
pub proof fn lemma_repeated_edit_changes_nothing_more(r: BookExcerpt, form: UpdateBookExcerpt, first: Timestamp, second: Timestamp)
    ensures
        edited_book_excerpt(edited_book_excerpt(r, form, first), form, second) == edited_book_excerpt(r, form, second),
        edited_book_excerpt(edited_book_excerpt(r, form, first), form, second) == (BookExcerpt {
            updated_at: second,
            ..edited_book_excerpt(r, form, first)
        }),
{
}

/// A book excerpt created from a form has the form's owner, title, page number,
/// text and date; it is created and last updated at the same time.
pub proof fn lemma_new_keeps_form(form: NewBookExcerpt, id: Id, now: Timestamp)
    ensures
        ({
            let b = new_book_excerpt(form, id, now);
            &&& b.title == form.title
            &&& b.page_number == form.page_number
            &&& b.text == form.text
            &&& b.date == form.date
            &&& b.id == id
            &&& b.user_id == form.user_id
            &&& b.created_at == now
            &&& b.updated_at == now
        }),
{
}

/// An edit sets each field that the form gives to the given value and keeps
/// each field it leaves out; the rest stays but for the update time.
pub proof fn lemma_edit_sets_given_fields(r: BookExcerpt, form: UpdateBookExcerpt, now: Timestamp)
    ensures
        ({
            let b = edited_book_excerpt(r, form, now);
            &&& (form.title matches Some(v) ==> b.title == v)
            &&& (form.title is None ==> b.title == r.title)
            &&& (form.page_number matches Some(v) ==> b.page_number == v)
            &&& (form.page_number is None ==> b.page_number == r.page_number)
            &&& (form.text matches Some(v) ==> b.text == v)
            &&& (form.text is None ==> b.text == r.text)
            &&& (form.date matches Some(v) ==> b.date == v)
            &&& (form.date is None ==> b.date == r.date)
            &&& b.updated_at == now
            &&& b.id == r.id
            &&& b.user_id == r.user_id
            &&& b.created_at == r.created_at
        }),
{
}

} // verus!
