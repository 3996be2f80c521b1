//! Sample actions.
use crate::entities::{Action, ActionTrackType};
use crate::ids::{now_v7_id, uuid_version, Id};
use crate::time::{current_time, is_clock_reading};
use vstd::prelude::*;

verus! {

/// A trackable, unarchived, unordered action of `user_id` named "action", colored
/// "#212121", tracked as a time span, with a fresh version 7 id, created now.
pub fn action(user_id: Id) -> (r: Action)
    ensures
        uuid_version(r.id) == 7,
        r.user_id == user_id,
        r.name@ == "action"@,
        r.description is None,
        !r.archived,
        r.ordering is None,
        r.trackable,
        r.color@ == "#212121"@,
        r.track_type == ActionTrackType::TimeSpan,
        r.updated_at == r.created_at,
        is_clock_reading(r.created_at),
{
    let now = current_time();
    Action {
        id: now_v7_id(),
        user_id,
        name: "action".to_string(),
        description: None,
        archived: false,
        ordering: None,
        trackable: true,
        color: "#212121".to_string(),
        track_type: ActionTrackType::TimeSpan,
        created_at: now,
        updated_at: now,
    }
}

/// `x` with its name set to `name`.
pub open spec fn action_with_name(x: Action, name: String) -> Action {
    Action { name, ..x }
}

/// `x` with its description set to `description`.
pub open spec fn action_with_description(x: Action, description: Option<String>) -> Action {
    Action { description, ..x }
}

/// `x` with its archived set to `archived`.
pub open spec fn action_with_archived(x: Action, archived: bool) -> Action {
    Action { archived, ..x }
}

/// `x` with its ordering set to `ordering`.
pub open spec fn action_with_ordering(x: Action, ordering: Option<i32>) -> Action {
    Action { ordering, ..x }
}

/// `x` with its track type set to `track_type`.
pub open spec fn action_with_track_type(x: Action, track_type: ActionTrackType) -> Action {
    Action { track_type, ..x }
}

pub trait ActionFactory {
    fn name(self, name: String) -> Action;

    fn description(self, description: Option<String>) -> Action;

    fn archived(self, archived: bool) -> Action;

    fn ordering(self, ordering: Option<i32>) -> Action;

    fn track_type(self, track_type: ActionTrackType) -> Action;
}

impl ActionFactory for Action {
    /// The action named `name`.
    fn name(self, name: String) -> (r: Action)
        ensures
            r == action_with_name(self, name),
    {
        Action { name, ..self }
    }

    /// The action with description `description`.
    fn description(self, description: Option<String>) -> (r: Action)
        ensures
            r == action_with_description(self, description),
    {
        Action { description, ..self }
    }

    /// The action with archived flag `archived`.
    fn archived(self, archived: bool) -> (r: Action)
        ensures
            r == action_with_archived(self, archived),
    {
        Action { archived, ..self }
    }

    /// The action with ordering `ordering`.
    fn ordering(self, ordering: Option<i32>) -> (r: Action)
        ensures
            r == action_with_ordering(self, ordering),
    {
        Action { ordering, ..self }
    }

    /// The action with track type `track_type`.
    fn track_type(self, track_type: ActionTrackType) -> (r: Action)
        ensures
            r == action_with_track_type(self, track_type),
    {
        Action { track_type, ..self }
    }
}

/// Setting a sample's name gives it the value asked for and changes no other
/// field.
pub proof fn lemma_action_with_name_sets_only_it(x: Action, name: String)
    ensures
        ({
            let b = action_with_name(x, name);
            &&& b.name == name
            &&& b.id == x.id
            &&& b.user_id == x.user_id
            &&& b.description == x.description
            &&& b.archived == x.archived
            &&& b.ordering == x.ordering
            &&& b.trackable == x.trackable
            &&& b.color == x.color
            &&& b.track_type == x.track_type
            &&& b.created_at == x.created_at
            &&& b.updated_at == x.updated_at
        }),
{
}

/// Setting a sample's description gives it the value asked for and changes no other
/// field.
pub proof fn lemma_action_with_description_sets_only_it(x: Action, description: Option<String>)
    ensures
        ({
            let b = action_with_description(x, description);
            &&& b.description == description
            &&& b.id == x.id
            &&& b.user_id == x.user_id
            &&& b.name == x.name
            &&& b.archived == x.archived
            &&& b.ordering == x.ordering
            &&& b.trackable == x.trackable
            &&& b.color == x.color
            &&& b.track_type == x.track_type
            &&& b.created_at == x.created_at
            &&& b.updated_at == x.updated_at
        }),
{
}

/// Setting a sample's archived gives it the value asked for and changes no other
/// field.
pub proof fn lemma_action_with_archived_sets_only_it(x: Action, archived: bool)
    ensures
        ({
            let b = action_with_archived(x, archived);
            &&& b.archived == archived
            &&& b.id == x.id
            &&& b.user_id == x.user_id
            &&& b.name == x.name
            &&& b.description == x.description
            &&& b.ordering == x.ordering
            &&& b.trackable == x.trackable
            &&& b.color == x.color
            &&& b.track_type == x.track_type
            &&& b.created_at == x.created_at
            &&& b.updated_at == x.updated_at
        }),
{
}

/// Setting a sample's ordering gives it the value asked for and changes no other
/// field.
pub proof fn lemma_action_with_ordering_sets_only_it(x: Action, ordering: Option<i32>)
    ensures
        ({
            let b = action_with_ordering(x, ordering);
            &&& b.ordering == ordering
            &&& b.id == x.id
            &&& b.user_id == x.user_id
            &&& b.name == x.name
            &&& b.description == x.description
            &&& b.archived == x.archived
            &&& b.trackable == x.trackable
            &&& b.color == x.color
            &&& b.track_type == x.track_type
            &&& b.created_at == x.created_at
            &&& b.updated_at == x.updated_at
        }),
{
}

/// Setting a sample's track type gives it the value asked for and changes no other
/// field.
pub proof fn lemma_action_with_track_type_sets_only_it(x: Action, track_type: ActionTrackType)
    ensures
        ({
            let b = action_with_track_type(x, track_type);
            &&& b.track_type == track_type
            &&& b.id == x.id
            &&& b.user_id == x.user_id
            &&& b.name == x.name
            &&& b.description == x.description
            &&& b.archived == x.archived
            &&& b.ordering == x.ordering
            &&& b.trackable == x.trackable
            &&& b.color == x.color
            &&& b.created_at == x.created_at
            &&& b.updated_at == x.updated_at
        }),
{
}

} // verus!
