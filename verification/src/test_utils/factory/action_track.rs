//! Sample action tracks.
use super::Field;
use crate::ids::{now_v7_id, uuid_version, Id};
use crate::time::{
    add_seconds, current_time, is_clock_reading, seconds_later, seconds_later_secs, trunc_subsecs,
    Timestamp, MAX_DELTA_SECS,
    MAX_TIMESTAMP_SECS, MIN_TIMESTAMP_SECS,
};
use vstd::prelude::*;

verus! {

/// A track being built: its start is given, the other fields may still be left
/// for the store.
#[derive(Clone, Debug, PartialEq, Eq)]
pub struct ActionTrackDraft {
    pub id: Id,
    pub user_id: Id,
    pub action_id: Field<Option<Id>>,
    pub started_at: Timestamp,
    pub ended_at: Field<Option<Timestamp>>,
    pub duration: Field<Option<i64>>,
}

/// `t` can be moved by `seconds` seconds and stay a date-time that `chrono`
/// holds.
pub open spec fn can_shift(t: Timestamp, seconds: i64) -> bool {
    &&& t.wf()
    &&& -MAX_DELTA_SECS <= seconds <= MAX_DELTA_SECS
    &&& MIN_TIMESTAMP_SECS <= seconds_later_secs(t, seconds as int) <= MAX_TIMESTAMP_SECS
}

/// `t` moved by `seconds` seconds.
pub open spec fn shifted(t: Timestamp, seconds: i64) -> Timestamp {
    seconds_later(t, seconds as int)
}

/// A running track of `user_id`, started now (cut to the whole second), for no
/// action yet, with a fresh version 7 id.
pub fn action_track(user_id: Id) -> (r: ActionTrackDraft)
    ensures
        uuid_version(r.id) == 7,
        r.user_id == user_id,
        r.action_id == Field::<Option<Id>>::NotSet,
        is_clock_reading(r.started_at),
        r.started_at.nanos == 0,
        r.ended_at == Field::<Option<Timestamp>>::NotSet,
        r.duration == Field::<Option<i64>>::NotSet,
{
    let now = current_time();
    ActionTrackDraft {
        id: now_v7_id(),
        user_id,
        action_id: Field::NotSet,
        started_at: trunc_subsecs(now),
        ended_at: Field::NotSet,
        duration: Field::NotSet,
    }
}

/// `d` for action `action_id`.
pub open spec fn draft_for_action(d: ActionTrackDraft, action_id: Option<Id>) -> ActionTrackDraft {
    ActionTrackDraft { action_id: Field::Value(action_id), ..d }
}

/// `d` lasting `duration` seconds: it ends that long after its start, or,
/// without a duration, it has no end.
pub open spec fn draft_lasting(d: ActionTrackDraft, duration: Option<i64>) -> ActionTrackDraft {
    ActionTrackDraft {
        duration: Field::Value(duration),
        ended_at: Field::Value(
            match duration {
                Some(k) => Some(shifted(d.started_at, k)),
                None => None,
            },
        ),
        ..d
    }
}

/// `d` starting at `started_at`; when a duration was given, its end moves with
/// its start.
pub open spec fn draft_starting(d: ActionTrackDraft, started_at: Timestamp) -> ActionTrackDraft {
    ActionTrackDraft {
        started_at,
        ended_at: match d.duration {
            Field::Value(Some(k)) => Field::Value(Some(shifted(started_at, k))),
            _ => d.ended_at,
        },
        ..d
    }
}

pub trait ActionTrackFactory: Sized {
    /// The draft can take duration `duration`.
    spec fn accepts_duration(&self, duration: Option<i64>) -> bool;

    /// The draft can take start `started_at`.
    spec fn accepts_started_at(&self, started_at: Timestamp) -> bool;

    fn action_id(self, action_id: Option<Id>) -> ActionTrackDraft;

    fn duration(self, duration: Option<i64>) -> ActionTrackDraft
        requires
            self.accepts_duration(duration),
    ;

    fn started_at(self, started_at: Timestamp) -> ActionTrackDraft
        requires
            self.accepts_started_at(started_at),
    ;
}

impl ActionTrackFactory for ActionTrackDraft {
    /// A duration can be given when the end it implies is a date-time.
    open spec fn accepts_duration(&self, duration: Option<i64>) -> bool {
        duration matches Some(d) ==> can_shift(self.started_at, d)
    }

    /// A start can be given when the end implied by a given duration is a
    /// date-time.
    open spec fn accepts_started_at(&self, started_at: Timestamp) -> bool {
        self.duration matches Field::Value(Some(d)) ==> can_shift(started_at, d)
    }

    /// The draft for action `action_id`.
    fn action_id(self, action_id: Option<Id>) -> (r: ActionTrackDraft)
        ensures
            r == draft_for_action(self, action_id),
    {
        ActionTrackDraft { action_id: Field::Value(action_id), ..self }
    }

    /// The draft lasting `duration` seconds: it ends that long after its start,
    /// or, without a duration, it has no end.
    fn duration(self, duration: Option<i64>) -> (r: ActionTrackDraft)
        ensures
            r == draft_lasting(self, duration),
    {
        let ended_at = match duration {
            Some(d) => Some(add_seconds(self.started_at, d)),
            None => None,
        };
        ActionTrackDraft { duration: Field::Value(duration), ended_at: Field::Value(ended_at), ..self }
    }

    /// The draft starting at `started_at`; when a duration was given, its end
    /// moves with its start.
    fn started_at(self, started_at: Timestamp) -> (r: ActionTrackDraft)
        ensures
            r == draft_starting(self, started_at),
    {
        match self.duration {
            Field::Value(Some(d)) => {
                let ended = add_seconds(started_at, d);
                ActionTrackDraft { started_at, ended_at: Field::Value(Some(ended)), ..self }
            },
            _ => ActionTrackDraft { started_at, ..self },
        }
    }
}

/// Choosing a draft's action sets it and changes no other field.
pub proof fn lemma_draft_for_action_sets_only_it(d: ActionTrackDraft, action_id: Option<Id>)
    ensures
        ({
            let b = draft_for_action(d, action_id);
            &&& b.action_id == Field::Value(action_id)
            &&& b.id == d.id
            &&& b.user_id == d.user_id
            &&& b.started_at == d.started_at
            &&& b.ended_at == d.ended_at
            &&& b.duration == d.duration
        }),
{
}

/// A draft given a duration keeps its start and has that duration; without one
/// it has no end; with one, outside a leap second, it ends that many seconds
/// after its start, at the same fraction and offset.
pub proof fn lemma_draft_lasting_ends_after_its_start(d: ActionTrackDraft, duration: Option<i64>)
    requires
        d.accepts_duration(duration),
    ensures
        ({
            let b = draft_lasting(d, duration);
            &&& b.duration == Field::Value(duration)
            &&& b.id == d.id
            &&& b.user_id == d.user_id
            &&& b.action_id == d.action_id
            &&& b.started_at == d.started_at
            &&& (duration is None ==> b.ended_at == Field::<Option<Timestamp>>::Value(None))
            &&& (duration matches Some(k) ==> b.ended_at matches Field::Value(Some(e)) && (!d.started_at.is_leap()
                ==> e.secs == d.started_at.secs + k && e.nanos == d.started_at.nanos && e.offset
                == d.started_at.offset))
        }),
{
}

/// A draft given a start has that start and keeps its duration; when it has a
/// duration, outside a leap second, it now ends that many seconds after the new
/// start; otherwise its end stays.
pub proof fn lemma_draft_starting_moves_its_end(d: ActionTrackDraft, started_at: Timestamp)
    requires
        d.accepts_started_at(started_at),
    ensures
        ({
            let b = draft_starting(d, started_at);
            &&& b.started_at == started_at
            &&& b.id == d.id
            &&& b.user_id == d.user_id
            &&& b.action_id == d.action_id
            &&& b.duration == d.duration
            &&& (d.duration matches Field::Value(Some(k)) ==> b.ended_at matches Field::Value(Some(e)) && (
            !started_at.is_leap() ==> e.secs == started_at.secs + k && e.nanos == started_at.nanos && e.offset
                == started_at.offset))
            &&& (!(d.duration matches Field::Value(Some(_))) ==> b.ended_at == d.ended_at)
        }),
{
}

} // verus!
