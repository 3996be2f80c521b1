//! Recording, editing and deleting the times at which a user did an action.
use crate::entities::ActionTrack;
use crate::error::{found_or_not_found, CustomDbErr};
use crate::ids::{now_v7_id, uuid_version, Id};
use crate::time::{
    whole_seconds_toward_zero,
    lemma_seconds_between_truncated, nanos_between, seconds_between, seconds_between_spec,
    trunc_subsecs, Timestamp,
};
use vstd::prelude::*;

verus! {

/// What a user gives to record a track: when it started, when it ended if it
/// has.
#[derive(Clone, Debug, PartialEq, Eq)]
pub struct NewActionTrack {
    pub started_at: Timestamp,
    pub ended_at: Option<Timestamp>,
    pub action_id: Id,
    pub user_id: Id,
}

/// What a user gives to edit a track.
#[derive(Clone, Debug, PartialEq, Eq)]
pub struct UpdateActionTrack {
    pub started_at: Timestamp,
    pub ended_at: Option<Timestamp>,
    pub action_id: Id,
    pub user_id: Id,
}

/// Every date-time that a track form holds is well formed.
pub open spec fn track_times_wf(started_at: Timestamp, ended_at: Option<Timestamp>) -> bool {
    &&& started_at.wf()
    &&& ended_at matches Some(e) ==> e.wf()
}

/// The track recorded for `form` under `id`: both ends cut to the whole second,
/// and, once ended, its duration in seconds between the cut ends. Without an end,
/// end and duration are left to the store, which leaves them empty.
pub open spec fn new_action_track(form: NewActionTrack, id: Id) -> ActionTrack {
    ActionTrack {
        id,
        user_id: form.user_id,
        action_id: form.action_id,
        started_at: form.started_at.truncated(),
        ended_at: match form.ended_at {
            Some(e) => Some(e.truncated()),
            None => None,
        },
        duration: match form.ended_at {
            Some(e) => Some(seconds_between_spec(e.truncated(), form.started_at.truncated()) as i64),
            None => None,
        },
    }
}

/// `t` after an edit with `form`: action and ends replaced, both ends cut to the
/// whole second, and the duration counted in whole seconds (toward zero) between
/// the ends as given, before cutting; no end means no duration.
pub open spec fn edited_action_track(t: ActionTrack, form: UpdateActionTrack) -> ActionTrack {
    ActionTrack {
        action_id: form.action_id,
        started_at: form.started_at.truncated(),
        ended_at: match form.ended_at {
            Some(e) => Some(e.truncated()),
            None => None,
        },
        duration: match form.ended_at {
            Some(e) => Some(seconds_between_spec(e, form.started_at) as i64),
            None => None,
        },
        ..t
    }
}

pub struct ActionTrackMutation;

impl ActionTrackMutation {
    /// The track to insert for `form`, under a fresh version 7 id.
    pub fn create(form: NewActionTrack) -> (r: ActionTrack)
        requires
            track_times_wf(form.started_at, form.ended_at),
        ensures
            r == new_action_track(form, r.id),
            uuid_version(r.id) == 7,
    {
        let started_at = trunc_subsecs(form.started_at);
        let (ended_at, duration) = match form.ended_at {
            Some(e) => {
                let ended = trunc_subsecs(e);
                let seconds = seconds_between(ended, started_at);
                (Some(ended), Some(seconds))
            },
            None => (None, None),
        };
        ActionTrack {
            id: now_v7_id(),
            user_id: form.user_id,
            action_id: form.action_id,
            started_at,
            ended_at,
            duration,
        }
    }

    /// The found track after an edit with `form`; `NotFound` when the lookup
    /// found none.
    pub fn update(found: Option<ActionTrack>, form: UpdateActionTrack) -> (r: Result<
        ActionTrack,
        CustomDbErr,
    >)
        requires
            track_times_wf(form.started_at, form.ended_at),
        ensures
            r == match found {
                Some(t) => Ok(edited_action_track(t, form)),
                None => Err(CustomDbErr::NotFound),
            },
    {
        match found {
            None => Err(CustomDbErr::NotFound),
            Some(t) => {
                let started_at = trunc_subsecs(form.started_at);
                let (ended_at, duration) = match form.ended_at {
                    Some(e) => (Some(trunc_subsecs(e)), Some(seconds_between(e, form.started_at))),
                    None => (None, None),
                };
                Ok(ActionTrack { action_id: form.action_id, started_at, ended_at, duration, ..t })
            },
        }
    }

    /// The outcome of writing a track: the stored track, or `Duplicate` when the
    /// store refused the write (a track of the same action already starts then).
    pub fn written(stored: Option<ActionTrack>) -> (r: Result<ActionTrack, CustomDbErr>)
        ensures
            r == match stored {
                Some(t) => Ok::<ActionTrack, CustomDbErr>(t),
                None => Err(CustomDbErr::Duplicate),
            },
    {
        match stored {
            Some(t) => Ok(t),
            None => Err(CustomDbErr::Duplicate),
        }
    }

    /// The track to delete: the found one, or `NotFound`.
    pub fn delete(found: Option<ActionTrack>) -> (r: Result<ActionTrack, CustomDbErr>)
        ensures
            r == found_or_not_found(found),
    {
        match found {
            Some(t) => Ok(t),
            None => Err(CustomDbErr::NotFound),
        }
    }
}

/// A recorded track lasts no time when it ends in the second it starts; outside
/// leap seconds, it lasts exactly the difference of the seconds of its ends, and
/// no less than nothing when it ends no earlier than it starts.
pub proof fn lemma_new_track_duration_matches_ends(form: NewActionTrack, id: Id)
    requires
        track_times_wf(form.started_at, form.ended_at),
        form.ended_at is Some,
    ensures
        form.ended_at->0.truncated() == form.started_at.truncated() ==> new_action_track(form, id).duration
            == Some(0i64),
        !form.started_at.is_leap() && !form.ended_at->0.is_leap() ==> new_action_track(form, id).duration
            == Some((form.ended_at->0.secs - form.started_at.secs) as i64),
        !form.started_at.is_leap() && !form.ended_at->0.is_leap() && form.ended_at->0.secs
            >= form.started_at.secs ==> new_action_track(form, id).duration->0 >= 0,
{
    let e = form.ended_at->0.truncated();
    let s = form.started_at.truncated();
    if e == s {
        assert(nanos_between(e, s) == 0);
    }
    if !form.started_at.is_leap() && !form.ended_at->0.is_leap() {
        lemma_seconds_between_truncated(e, s);
    }
}

/// `c` is `t` cut to the whole second: the same second and offset, no fraction
/// left, but a leap second stays the leap second.
pub open spec fn is_cut_of(c: Timestamp, t: Timestamp) -> bool {
    &&& c.secs == t.secs
    &&& c.offset == t.offset
    &&& (t.nanos < 1_000_000_000 ==> c.nanos == 0)
    &&& (t.nanos >= 1_000_000_000 ==> c.nanos == 1_000_000_000)
}

/// A recorded track belongs to the form's user and action, starts at the form's
/// start cut to the whole second, ends at the form's end (if any) cut likewise,
/// and has a duration exactly when it has an end.
pub proof fn lemma_new_track_keeps_form(form: NewActionTrack, id: Id)
    ensures
        ({
            let t = new_action_track(form, id);
            &&& t.id == id
            &&& t.user_id == form.user_id
            &&& t.action_id == form.action_id
            &&& is_cut_of(t.started_at, form.started_at)
            &&& (form.ended_at is None ==> t.ended_at is None && t.duration is None)
            &&& (form.ended_at matches Some(e) ==> t.ended_at is Some && is_cut_of(t.ended_at->0, e)
                && t.duration is Some)
        }),
{
}

/// An edit keeps a track's id and owner, sets the form's action, starts it at the
/// form's start cut to the whole second, ends it at the form's end (if any) cut
/// likewise, and counts its duration between the ends as given, before cutting:
/// outside leap seconds, the whole seconds between them rounded toward zero.
pub proof fn lemma_edit_sets_given_fields(t: ActionTrack, form: UpdateActionTrack)
    ensures
        ({
            let b = edited_action_track(t, form);
            &&& b.id == t.id
            &&& b.user_id == t.user_id
            &&& b.action_id == form.action_id
            &&& is_cut_of(b.started_at, form.started_at)
            &&& (form.ended_at is None ==> b.ended_at is None && b.duration is None)
            &&& (form.ended_at matches Some(e) ==> b.ended_at is Some && is_cut_of(b.ended_at->0, e)
                && b.duration is Some)
            &&& (form.ended_at matches Some(e) ==> !e.is_leap() && !form.started_at.is_leap() ==> b.duration
                == Some(whole_seconds_toward_zero(
                (e.secs - form.started_at.secs) * 1_000_000_000 + e.nanos - form.started_at.nanos,
            ) as i64))
        }),
{
}

} // verus!
