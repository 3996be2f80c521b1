//! Sample diary entries.
use crate::entities::{Date, Diary};
use crate::ids::{new_v4_id, uuid_version, Id};
use crate::time::{current_time, is_clock_reading, utc_date, utc_date_of, Timestamp};
use vstd::prelude::*;

verus! {

/// A diary entry of `user_id` with text "diary" and score 4, dated today (UTC),
/// with a fresh version 4 id.
pub fn diary(user_id: Id) -> (r: Diary)
    ensures
        uuid_version(r.id) == 4,
        r.user_id == user_id,
        r.text matches Some(t) && t@ == "diary"@,
        r.score == Some(4i16),
        (exists|now: Timestamp| is_clock_reading(now) && r.date == utc_date_of(now)),
{
    let id = new_v4_id();
    let now = current_time();
    Diary { id, text: Some("diary".to_string()), date: utc_date(now), score: Some(4), user_id }
}

/// `x` with its text set to `text`.
pub open spec fn diary_with_text(x: Diary, text: Option<String>) -> Diary {
    Diary { text, ..x }
}

/// `x` with its date set to `date`.
pub open spec fn diary_with_date(x: Diary, date: Date) -> Diary {
    Diary { date, ..x }
}

pub trait DiaryFactory {
    fn text(self, text: Option<String>) -> Diary;

    fn date(self, date: Date) -> Diary;
}

impl DiaryFactory for Diary {
    /// The entry with text `text`.
    fn text(self, text: Option<String>) -> (r: Diary)
        ensures
            r == diary_with_text(self, text),
    {
        Diary { text, ..self }
    }

    /// The entry dated `date`.
    fn date(self, date: Date) -> (r: Diary)
        ensures
            r == diary_with_date(self, date),
    {
        Diary { date, ..self }
    }
}

/// Setting a sample's text gives it the value asked for and changes no other
/// field.
pub proof fn lemma_diary_with_text_sets_only_it(x: Diary, text: Option<String>)
    ensures
        ({
            let b = diary_with_text(x, text);
            &&& b.text == text
            &&& b.id == x.id
            &&& b.user_id == x.user_id
            &&& b.date == x.date
            &&& b.score == x.score
        }),
{
}

/// Setting a sample's date gives it the value asked for and changes no other
/// field.
pub proof fn lemma_diary_with_date_sets_only_it(x: Diary, date: Date)
    ensures
        ({
            let b = diary_with_date(x, date);
            &&& b.date == date
            &&& b.id == x.id
            &&& b.user_id == x.user_id
            &&& b.text == x.text
            &&& b.score == x.score
        }),
{
}

} // verus!
