//! Sample book excerpts.
use crate::entities::BookExcerpt;
use crate::ids::{new_v4_id, uuid_version, Id};
use crate::time::{current_time, is_clock_reading, utc_date, utc_date_of};
use vstd::prelude::*;

verus! {

/// An excerpt of `user_id` titled "book_excerpt", page 1, text "book content",
/// dated today (UTC), with a fresh version 4 id, created now.
pub fn book_excerpt(user_id: Id) -> (r: BookExcerpt)
    ensures
        uuid_version(r.id) == 4,
        r.user_id == user_id,
        r.title@ == "book_excerpt"@,
        r.page_number == 1,
        r.text@ == "book content"@,
        r.date == utc_date_of(r.created_at),
        r.updated_at == r.created_at,
        is_clock_reading(r.created_at),
{
    let now = current_time();
    BookExcerpt {
        id: new_v4_id(),
        title: "book_excerpt".to_string(),
        page_number: 1,
        text: "book content".to_string(),
        date: utc_date(now),
        user_id,
        created_at: now,
        updated_at: now,
    }
}

/// `x` with its title set to `title`.
pub open spec fn book_excerpt_with_title(x: BookExcerpt, title: String) -> BookExcerpt {
    BookExcerpt { title, ..x }
}

pub trait BookExcerptFactory {
    fn title(self, title: String) -> BookExcerpt;
}

impl BookExcerptFactory for BookExcerpt {
    /// The excerpt with title `title`.
    fn title(self, title: String) -> (r: BookExcerpt)
        ensures
            r == book_excerpt_with_title(self, title),
    {
        BookExcerpt { title, ..self }
    }
}

/// Setting a sample's title gives it the value asked for and changes no other
/// field.
pub proof fn lemma_book_excerpt_with_title_sets_only_it(x: BookExcerpt, title: String)
    ensures
        ({
            let b = book_excerpt_with_title(x, title);
            &&& b.title == title
            &&& b.id == x.id
            &&& b.user_id == x.user_id
            &&& b.page_number == x.page_number
            &&& b.text == x.text
            &&& b.date == x.date
            &&& b.created_at == x.created_at
            &&& b.updated_at == x.updated_at
        }),
{
}

} // verus!
