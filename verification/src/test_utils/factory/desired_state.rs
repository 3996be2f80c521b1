//! Sample desired states.
use crate::entities::DesiredState;
use crate::ids::{new_v4_id, uuid_version, Id};
use crate::time::{current_time, is_clock_reading};
use vstd::prelude::*;

verus! {

/// An unarchived, unordered desired state of `user_id` named "desired_state", in
/// no category, with a fresh version 4 id, created now.
pub fn desired_state(user_id: Id) -> (r: DesiredState)
    ensures
        uuid_version(r.id) == 4,
        r.user_id == user_id,
        r.name@ == "desired_state"@,
        r.description is None,
        !r.archived,
        r.ordering is None,
        r.category_id is None,
        r.updated_at == r.created_at,
        is_clock_reading(r.created_at),
{
    let now = current_time();
    DesiredState {
        id: new_v4_id(),
        user_id,
        name: "desired_state".to_string(),
        description: None,
        archived: false,
        ordering: None,
        category_id: None,
        created_at: now,
        updated_at: now,
    }
}

/// `x` with its name set to `name`.
pub open spec fn desired_state_with_name(x: DesiredState, name: String) -> DesiredState {
    DesiredState { name, ..x }
}

/// `x` with its description set to `description`.
pub open spec fn desired_state_with_description(x: DesiredState, description: Option<String>) -> DesiredState {
    DesiredState { description, ..x }
}

/// `x` with its archived set to `archived`.
pub open spec fn desired_state_with_archived(x: DesiredState, archived: bool) -> DesiredState {
    DesiredState { archived, ..x }
}

/// `x` with its ordering set to `ordering`.
pub open spec fn desired_state_with_ordering(x: DesiredState, ordering: Option<i32>) -> DesiredState {
    DesiredState { ordering, ..x }
}

pub trait DesiredStateFactory {
    fn name(self, name: String) -> DesiredState;

    fn description(self, description: Option<String>) -> DesiredState;

    fn archived(self, archived: bool) -> DesiredState;

    fn ordering(self, ordering: Option<i32>) -> DesiredState;
}

impl DesiredStateFactory for DesiredState {
    /// The desired state named `name`.
    fn name(self, name: String) -> (r: DesiredState)
        ensures
            r == desired_state_with_name(self, name),
    {
        DesiredState { name, ..self }
    }

    /// The desired state with description `description`.
    fn description(self, description: Option<String>) -> (r: DesiredState)
        ensures
            r == desired_state_with_description(self, description),
    {
        DesiredState { description, ..self }
    }

    /// The desired state with archived flag `archived`.
    fn archived(self, archived: bool) -> (r: DesiredState)
        ensures
            r == desired_state_with_archived(self, archived),
    {
        DesiredState { archived, ..self }
    }

    /// The desired state with ordering `ordering`.
    fn ordering(self, ordering: Option<i32>) -> (r: DesiredState)
        ensures
            r == desired_state_with_ordering(self, ordering),
    {
        DesiredState { ordering, ..self }
    }
}

/// Setting a sample's name gives it the value asked for and changes no other
/// field.
pub proof fn lemma_desired_state_with_name_sets_only_it(x: DesiredState, name: String)
    ensures
        ({
            let b = desired_state_with_name(x, name);
            &&& b.name == name
            &&& b.id == x.id
            &&& b.user_id == x.user_id
            &&& b.description == x.description
            &&& b.category_id == x.category_id
            &&& b.archived == x.archived
            &&& b.ordering == x.ordering
            &&& b.created_at == x.created_at
            &&& b.updated_at == x.updated_at
        }),
{
}

/// Setting a sample's description gives it the value asked for and changes no other
/// field.
pub proof fn lemma_desired_state_with_description_sets_only_it(x: DesiredState, description: Option<String>)
    ensures
        ({
            let b = desired_state_with_description(x, description);
            &&& b.description == description
            &&& b.id == x.id
            &&& b.user_id == x.user_id
            &&& b.name == x.name
            &&& b.category_id == x.category_id
            &&& b.archived == x.archived
            &&& b.ordering == x.ordering
            &&& b.created_at == x.created_at
            &&& b.updated_at == x.updated_at
        }),
{
}

/// Setting a sample's archived gives it the value asked for and changes no other
/// field.
pub proof fn lemma_desired_state_with_archived_sets_only_it(x: DesiredState, archived: bool)
    ensures
        ({
            let b = desired_state_with_archived(x, archived);
            &&& b.archived == archived
            &&& b.id == x.id
            &&& b.user_id == x.user_id
            &&& b.name == x.name
            &&& b.description == x.description
            &&& b.category_id == x.category_id
            &&& b.ordering == x.ordering
            &&& b.created_at == x.created_at
            &&& b.updated_at == x.updated_at
        }),
{
}

/// Setting a sample's ordering gives it the value asked for and changes no other
/// field.
pub proof fn lemma_desired_state_with_ordering_sets_only_it(x: DesiredState, ordering: Option<i32>)
    ensures
        ({
            let b = desired_state_with_ordering(x, ordering);
            &&& b.ordering == ordering
            &&& b.id == x.id
            &&& b.user_id == x.user_id
            &&& b.name == x.name
            &&& b.description == x.description
            &&& b.category_id == x.category_id
            &&& b.archived == x.archived
            &&& b.created_at == x.created_at
            &&& b.updated_at == x.updated_at
        }),
{
}

} // verus!
