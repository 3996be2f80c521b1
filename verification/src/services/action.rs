//! The first version of the action service: actions that have only a name.
use crate::entities::{Action, TagInsert};
use crate::error::{found_or_not_found, require_found, CustomDbErr};
use crate::ids::{new_v4_id, uuid_version, Id};
use crate::services::action_mutation::{action_tag_insert, ActionInsert};
use crate::time::{current_time, is_clock_reading, Timestamp};
use vstd::prelude::*;

verus! {

/// What a user gives to create an action.
#[derive(Clone, Debug, PartialEq, Eq)]
pub struct NewAction {
    pub name: String,
    pub user_id: Id,
}

/// The action that `create_with_tag` inserts for `form` under `id`: only its
/// name and owner are set.
pub open spec fn named_action_insert(form: NewAction, id: Id) -> ActionInsert {
    ActionInsert { id, user_id: form.user_id, name: form.name, description: None, track_type: None }
}

/// `a` renamed to `name` at `now`.
pub open spec fn renamed_action(a: Action, name: String, now: Timestamp) -> Action {
    Action { name, updated_at: now, ..a }
}

pub struct Mutation;

impl Mutation {
    /// The action to insert for `form` and the tag that stands for it, under two
    /// fresh version 4 ids.
    pub fn create_with_tag(form: NewAction) -> (r: (ActionInsert, TagInsert))
        ensures
            r.0 == named_action_insert(form, r.0.id),
            r.1 == action_tag_insert(form.user_id, r.0.id, r.1.id),
            uuid_version(r.0.id) == 4,
            uuid_version(r.1.id) == 4,
    {
        let action_id = new_v4_id();
        let user_id = form.user_id;
        let action = ActionInsert { id: action_id, user_id, name: form.name, description: None, track_type: None };
        let tag = TagInsert {
            id: new_v4_id(),
            user_id,
            name: None,
            ambition_id: None,
            objective_id: None,
            desired_state_id: None,
            action_id: Some(action_id),
            mindset_id: None,
            created_at: None,
        };
        (action, tag)
    }

    /// The found action renamed to `name` and stamped with the current time;
    /// `NotFound` when the lookup found none.
    pub fn update(found: Option<Action>, name: String) -> (r: Result<Action, CustomDbErr>)
        ensures
            found is None ==> r == Err::<Action, CustomDbErr>(CustomDbErr::NotFound),
            found matches Some(a) ==> r matches Ok(b) && b == renamed_action(a, name, b.updated_at)
                && is_clock_reading(b.updated_at),
    {
        match found {
            None => Err(CustomDbErr::NotFound),
            Some(a) => Ok(Action { name, updated_at: current_time(), ..a }),
        }
    }

    /// The action to delete: the found one, or `NotFound`.
    pub fn delete(found: Option<Action>) -> (r: Result<Action, CustomDbErr>)
        ensures
            r == found_or_not_found(found),
    {
        require_found(found)
    }
}

pub struct Query;

impl Query {
    /// The action that the lookup by id and owner found, or `NotFound`.
    pub fn find_by_id_and_user_id(found: Option<Action>) -> (r: Result<Action, CustomDbErr>)
        ensures
            r == found_or_not_found(found),
    {
        require_found(found)
    }
}

/// An action created through this service has the form's owner and name, no
/// description and no track type, under the id it is given.
pub proof fn lemma_named_action_keeps_form(form: NewAction, id: Id)
    ensures
        ({
            let a = named_action_insert(form, id);
            &&& a.id == id
            &&& a.user_id == form.user_id
            &&& a.name == form.name
            &&& a.description is None
            &&& a.track_type is None
        }),
{
}

/// A rename sets the given name and changes nothing else but the update time.
pub proof fn lemma_rename_sets_only_the_name(a: Action, name: String, now: Timestamp)
    ensures
        ({
            let b = renamed_action(a, name, now);
            &&& b.name == name
            &&& b.updated_at == now
            &&& b.id == a.id
            &&& b.user_id == a.user_id
            &&& b.description == a.description
            &&& b.archived == a.archived
            &&& b.ordering == a.ordering
            &&& b.trackable == a.trackable
            &&& b.color == a.color
            &&& b.track_type == a.track_type
            &&& b.created_at == a.created_at
        }),
{
}

} // verus!
