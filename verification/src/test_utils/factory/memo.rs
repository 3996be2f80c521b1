//! Sample memos.
use crate::entities::{Date, Memo};
use crate::ids::{now_v7_id, uuid_version, Id};
use crate::time::{current_time, is_clock_reading, utc_date, utc_date_of};
use vstd::prelude::*;

verus! {

/// A memo of `user_id` titled "memo" with text "text", dated today (UTC), neither
/// favorite nor archived, with a fresh version 7 id, created now.
pub fn memo(user_id: Id) -> (r: Memo)
    ensures
        uuid_version(r.id) == 7,
        r.user_id == user_id,
        r.title@ == "memo"@,
        r.text@ == "text"@,
        r.date == utc_date_of(r.created_at),
        !r.favorite,
        !r.archived,
        r.updated_at == r.created_at,
        is_clock_reading(r.created_at),
{
    let now = current_time();
    Memo {
        id: now_v7_id(),
        title: "memo".to_string(),
        text: "text".to_string(),
        date: utc_date(now),
        favorite: false,
        archived: false,
        user_id,
        created_at: now,
        updated_at: now,
    }
}

/// `x` with its title set to `title`.
pub open spec fn memo_with_title(x: Memo, title: String) -> Memo {
    Memo { title, ..x }
}

/// `x` with its date set to `date`.
pub open spec fn memo_with_date(x: Memo, date: Date) -> Memo {
    Memo { date, ..x }
}

/// `x` with its favorite set to `favorite`.
pub open spec fn memo_with_favorite(x: Memo, favorite: bool) -> Memo {
    Memo { favorite, ..x }
}

pub trait MemoFactory {
    fn title(self, title: String) -> Memo;

    fn date(self, date: Date) -> Memo;

    fn favorite(self, favorite: bool) -> Memo;
}

impl MemoFactory for Memo {
    /// The memo titled `title`.
    fn title(self, title: String) -> (r: Memo)
        ensures
            r == memo_with_title(self, title),
    {
        Memo { title, ..self }
    }

    /// The memo dated `date`.
    fn date(self, date: Date) -> (r: Memo)
        ensures
            r == memo_with_date(self, date),
    {
        Memo { date, ..self }
    }

    /// The memo with favorite flag `favorite`.
    fn favorite(self, favorite: bool) -> (r: Memo)
        ensures
            r == memo_with_favorite(self, favorite),
    {
        Memo { favorite, ..self }
    }
}

/// Setting a sample's title gives it the value asked for and changes no other
/// field.
pub proof fn lemma_memo_with_title_sets_only_it(x: Memo, title: String)
    ensures
        ({
            let b = memo_with_title(x, title);
            &&& b.title == title
            &&& b.id == x.id
            &&& b.user_id == x.user_id
            &&& b.text == x.text
            &&& b.date == x.date
            &&& b.favorite == x.favorite
            &&& b.archived == x.archived
            &&& b.created_at == x.created_at
            &&& b.updated_at == x.updated_at
        }),
{
}

/// Setting a sample's date gives it the value asked for and changes no other
/// field.
pub proof fn lemma_memo_with_date_sets_only_it(x: Memo, date: Date)
    ensures
        ({
            let b = memo_with_date(x, date);
            &&& b.date == date
            &&& b.id == x.id
            &&& b.user_id == x.user_id
            &&& b.title == x.title
            &&& b.text == x.text
            &&& b.favorite == x.favorite
            &&& b.archived == x.archived
            &&& b.created_at == x.created_at
            &&& b.updated_at == x.updated_at
        }),
{
}

/// Setting a sample's favorite gives it the value asked for and changes no other
/// field.
pub proof fn lemma_memo_with_favorite_sets_only_it(x: Memo, favorite: bool)
    ensures
        ({
            let b = memo_with_favorite(x, favorite);
            &&& b.favorite == favorite
            &&& b.id == x.id
            &&& b.user_id == x.user_id
            &&& b.title == x.title
            &&& b.text == x.text
            &&& b.date == x.date
            &&& b.archived == x.archived
            &&& b.created_at == x.created_at
            &&& b.updated_at == x.updated_at
        }),
{
}

} // verus!
