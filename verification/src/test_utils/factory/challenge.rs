//! Sample challenges.
use crate::entities::Challenge;
use crate::ids::{now_v7_id, uuid_version, Id};
use crate::time::{current_time, is_clock_reading, utc_date, utc_date_of, Timestamp};
use vstd::prelude::*;

verus! {

/// An unarchived, unaccomplished challenge of `user_id` titled "challenge" with
/// text "text", dated today (UTC), with a fresh version 7 id, created now.
pub fn challenge(user_id: Id) -> (r: Challenge)
    ensures
        uuid_version(r.id) == 7,
        r.user_id == user_id,
        r.title@ == "challenge"@,
        r.text@ == "text"@,
        r.date == utc_date_of(r.created_at),
        !r.archived,
        r.accomplished_at is None,
        r.updated_at == r.created_at,
        is_clock_reading(r.created_at),
{
    let now = current_time();
    Challenge {
        id: now_v7_id(),
        title: "challenge".to_string(),
        text: "text".to_string(),
        date: utc_date(now),
        archived: false,
        accomplished_at: None,
        user_id,
        created_at: now,
        updated_at: now,
    }
}

/// `x` with its title set to `title`.
pub open spec fn challenge_with_title(x: Challenge, title: String) -> Challenge {
    Challenge { title, ..x }
}

/// `x` with its archived set to `archived`.
pub open spec fn challenge_with_archived(x: Challenge, archived: bool) -> Challenge {
    Challenge { archived, ..x }
}

/// `x` with its accomplished at set to `accomplished_at`.
pub open spec fn challenge_with_accomplished_at(x: Challenge, accomplished_at: Option<Timestamp>) -> Challenge {
    Challenge { accomplished_at, ..x }
}

pub trait ChallengeFactory {
    fn title(self, title: String) -> Challenge;

    fn archived(self, archived: bool) -> Challenge;

    fn accomplished_at(self, accomplished_at: Option<Timestamp>) -> Challenge;
}

impl ChallengeFactory for Challenge {
    /// The challenge titled `title`.
    fn title(self, title: String) -> (r: Challenge)
        ensures
            r == challenge_with_title(self, title),
    {
        Challenge { title, ..self }
    }

    /// The challenge with archived flag `archived`.
    fn archived(self, archived: bool) -> (r: Challenge)
        ensures
            r == challenge_with_archived(self, archived),
    {
        Challenge { archived, ..self }
    }

    /// The challenge accomplished at `accomplished_at`.
    fn accomplished_at(self, accomplished_at: Option<Timestamp>) -> (r: Challenge)
        ensures
            r == challenge_with_accomplished_at(self, accomplished_at),
    {
        Challenge { accomplished_at, ..self }
    }
}

/// Setting a sample's title gives it the value asked for and changes no other
/// field.
pub proof fn lemma_challenge_with_title_sets_only_it(x: Challenge, title: String)
    ensures
        ({
            let b = challenge_with_title(x, title);
            &&& b.title == title
            &&& b.id == x.id
            &&& b.user_id == x.user_id
            &&& b.text == x.text
            &&& b.date == x.date
            &&& b.archived == x.archived
            &&& b.accomplished_at == x.accomplished_at
            &&& b.created_at == x.created_at
            &&& b.updated_at == x.updated_at
        }),
{
}

/// Setting a sample's archived gives it the value asked for and changes no other
/// field.
pub proof fn lemma_challenge_with_archived_sets_only_it(x: Challenge, archived: bool)
    ensures
        ({
            let b = challenge_with_archived(x, archived);
            &&& b.archived == archived
            &&& b.id == x.id
            &&& b.user_id == x.user_id
            &&& b.title == x.title
            &&& b.text == x.text
            &&& b.date == x.date
            &&& b.accomplished_at == x.accomplished_at
            &&& b.created_at == x.created_at
            &&& b.updated_at == x.updated_at
        }),
{
}

/// Setting a sample's accomplished at gives it the value asked for and changes no other
/// field.
pub proof fn lemma_challenge_with_accomplished_at_sets_only_it(x: Challenge, accomplished_at: Option<Timestamp>)
    ensures
        ({
            let b = challenge_with_accomplished_at(x, accomplished_at);
            &&& b.accomplished_at == accomplished_at
            &&& b.id == x.id
            &&& b.user_id == x.user_id
            &&& b.title == x.title
            &&& b.text == x.text
            &&& b.date == x.date
            &&& b.archived == x.archived
            &&& b.created_at == x.created_at
            &&& b.updated_at == x.updated_at
        }),
{
}

} // verus!
