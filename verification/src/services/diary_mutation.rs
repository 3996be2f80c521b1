//! Creating, editing and deleting diary entries.
use crate::entities::{Date, Diary, DiaryKey};
use crate::error::{found_or_not_found, CustomDbErr};
use crate::ids::{now_v7_id, uuid_version, Id};
use vstd::prelude::*;

verus! {

/// What a user gives to create a diary entry.
#[derive(Clone, Debug, PartialEq, Eq)]
pub struct NewDiary {
    pub text: Option<String>,
    pub date: Date,
    pub score: Option<i16>,
    pub tag_ids: Vec<Id>,
    pub user_id: Id,
}

/// An edit of diary entry `id`: only the fields named in `update_keys` are set,
/// each to the value given here (`TagIds` makes `tag_ids` the entry's tags).
#[derive(Clone, Debug, PartialEq, Eq)]
pub struct UpdateDiary {
    pub id: Id,
    pub text: Option<String>,
    pub date: Date,
    pub score: Option<i16>,
    pub tag_ids: Vec<Id>,
    pub user_id: Id,
    pub update_keys: Vec<DiaryKey>,
}

/// The diary entry created from `form` under `id`.
pub open spec fn new_diary(form: NewDiary, id: Id) -> Diary {
    Diary { id, user_id: form.user_id, text: form.text, date: form.date, score: form.score }
}

/// `d` with each field that `form.update_keys` names set from `form`.
pub open spec fn edited_diary(d: Diary, form: UpdateDiary) -> Diary {
    Diary {
        text: if form.update_keys@.contains(DiaryKey::Text) {
            form.text
        } else {
            d.text
        },
        date: if form.update_keys@.contains(DiaryKey::Date) {
            form.date
        } else {
            d.date
        },
        score: if form.update_keys@.contains(DiaryKey::Score) {
            form.score
        } else {
            d.score
        },
        ..d
    }
}

/// The tag list that an edit makes the entry's tags, if it names `TagIds`.
pub open spec fn requested_diary_tags(form: UpdateDiary) -> Option<Seq<Id>> {
    if form.update_keys@.contains(DiaryKey::TagIds) {
        Some(form.tag_ids@)
    } else {
        None
    }
}

/// Whether `keys` names `key`.
pub fn names_key(keys: &Vec<DiaryKey>, key: DiaryKey) -> (r: bool)
    ensures
        r == keys@.contains(key),
{
    let n = keys.len();
    for i in 0..n
        invariant
            n == keys@.len(),
            forall|j: int| 0 <= j < i ==> keys@[j] != key,
    {
        if keys[i] == key {
            return true;
        }
    }
    false
}

pub struct DiaryMutation;

impl DiaryMutation {
    /// The diary entry to insert for `form`, under a fresh version 7 id, and the
    /// tags to link to it (those of `form`, in order).
    pub fn create(form: NewDiary) -> (r: (Diary, Vec<Id>))
        ensures
            r.0 == new_diary(form, r.0.id),
            r.1@ == form.tag_ids@,
            uuid_version(r.0.id) == 7,
    {
        let diary = Diary {
            id: now_v7_id(),
            user_id: form.user_id,
            text: form.text,
            date: form.date,
            score: form.score,
        };
        (diary, form.tag_ids)
    }

    /// The found entry with the fields named by `form.update_keys` set, together
    /// with the tag list to make its tags when the keys name `TagIds`; `NotFound`
    /// when the lookup found none.
    pub fn partial_update(found: Option<Diary>, form: UpdateDiary) -> (r: Result<
        (Diary, Option<Vec<Id>>),
        CustomDbErr,
    >)
        ensures
            found is None ==> r == Err::<(Diary, Option<Vec<Id>>), CustomDbErr>(
                CustomDbErr::NotFound,
            ),
            found matches Some(d) ==> r matches Ok(res) && res.0 == edited_diary(d, form) && (
            match res.1 {
                Some(ids) => requested_diary_tags(form) == Some(ids@),
                None => requested_diary_tags(form) is None,
            }),
    {
        match found {
            None => Err(CustomDbErr::NotFound),
            Some(d) => {
                let set_text = names_key(&form.update_keys, DiaryKey::Text);
                let set_date = names_key(&form.update_keys, DiaryKey::Date);
                let set_score = names_key(&form.update_keys, DiaryKey::Score);
                let set_tags = names_key(&form.update_keys, DiaryKey::TagIds);
                let text = if set_text {
                    form.text
                } else {
                    d.text
                };
                let date = if set_date {
                    form.date
                } else {
                    d.date
                };
                let score = if set_score {
                    form.score
                } else {
                    d.score
                };
                let tags = if set_tags {
                    Some(form.tag_ids)
                } else {
                    None
                };
                Ok((Diary { text, date, score, ..d }, tags))
            },
        }
    }

    /// The diary entry to delete: the found one, or `NotFound`.
    pub fn delete(found: Option<Diary>) -> (r: Result<Diary, CustomDbErr>)
        ensures
            r == found_or_not_found(found),
    {
        match found {
            Some(d) => Ok(d),
            None => Err(CustomDbErr::NotFound),
        }
    }
}

/// An edit changes only the fields its keys name: an entry keeps its id and
/// owner, and every field that the keys leave out.
pub proof fn lemma_edit_touches_only_named_fields(d: Diary, form: UpdateDiary)
    ensures
        ({
            let e = edited_diary(d, form);
            &&& e.id == d.id
            &&& e.user_id == d.user_id
            &&& !form.update_keys@.contains(DiaryKey::Text) ==> e.text == d.text
            &&& !form.update_keys@.contains(DiaryKey::Date) ==> e.date == d.date
            &&& !form.update_keys@.contains(DiaryKey::Score) ==> e.score == d.score
        }),
        form.update_keys@.len() == 0 ==> edited_diary(d, form) == d && requested_diary_tags(form) is None,
{
}

/// Making the same edit twice gives what one edit gives.
pub proof fn lemma_repeated_edit_changes_nothing_more(d: Diary, form: UpdateDiary)
    ensures
        edited_diary(edited_diary(d, form), form) == edited_diary(d, form),
{
}

/// A diary entry created from a form has the form's owner, text, date and score,
/// under the id it is given.
pub proof fn lemma_new_keeps_form(form: NewDiary, id: Id)
    ensures
        ({
            let e = new_diary(form, id);
            &&& e.id == id
            &&& e.user_id == form.user_id
            &&& e.text == form.text
            &&& e.date == form.date
            &&& e.score == form.score
        }),
{
}

/// An edit sets exactly the fields its keys name to the form's values, whatever
/// they are (a named score or text that is none clears it), and keeps the others;
/// the tag list is asked for exactly when the keys name the tags.
pub proof fn lemma_edit_sets_named_fields(d: Diary, form: UpdateDiary)
    ensures
        ({
            let e = edited_diary(d, form);
            &&& (form.update_keys@.contains(DiaryKey::Text) ==> e.text == form.text)
            &&& (!form.update_keys@.contains(DiaryKey::Text) ==> e.text == d.text)
            &&& (form.update_keys@.contains(DiaryKey::Date) ==> e.date == form.date)
            &&& (!form.update_keys@.contains(DiaryKey::Date) ==> e.date == d.date)
            &&& (form.update_keys@.contains(DiaryKey::Score) ==> e.score == form.score)
            &&& (!form.update_keys@.contains(DiaryKey::Score) ==> e.score == d.score)
            &&& e.id == d.id
            &&& e.user_id == d.user_id
            &&& (form.update_keys@.contains(DiaryKey::TagIds) ==> requested_diary_tags(form) == Some(form.tag_ids@))
            &&& (!form.update_keys@.contains(DiaryKey::TagIds) ==> requested_diary_tags(form) is None)
        }),
{
}


} // verus!
