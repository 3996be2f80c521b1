//! The first version of the objective service: objectives that have only a
//! name.
use crate::entities::{Objective, TagInsert};
use crate::error::{found_or_not_found, require_found, CustomDbErr};
use crate::ids::{new_v4_id, uuid_version, Id};
use crate::services::objective_mutation::objective_tag_insert;
use crate::time::{current_time, is_clock_reading, Timestamp};
use vstd::prelude::*;

verus! {

/// What a user gives to create an objective.
#[derive(Clone, Debug, PartialEq, Eq)]
pub struct NewObjective {
    pub name: String,
    pub user_id: Id,
}

/// The fields that creating an objective sets; the store fills in the others
/// with their defaults.
#[derive(Clone, Debug, PartialEq, Eq)]
pub struct NamedObjectiveInsert {
    pub id: Id,
    pub user_id: Id,
    pub name: String,
    pub created_at: Timestamp,
    pub updated_at: Timestamp,
}

/// The objective created from `form` under `id`, with the given creation and
/// update times.
pub open spec fn named_objective_insert(
    form: NewObjective,
    id: Id,
    created_at: Timestamp,
    updated_at: Timestamp,
) -> NamedObjectiveInsert {
    NamedObjectiveInsert { id, user_id: form.user_id, name: form.name, created_at, updated_at }
}

/// `o` renamed to `name` at `now`.
pub open spec fn renamed_objective(o: Objective, name: String, now: Timestamp) -> Objective {
    Objective { name, updated_at: now, ..o }
}

pub struct Mutation;

impl Mutation {
    /// The objective to insert for `form` and the tag that stands for it, under
    /// two fresh version 4 ids; creation time, update time and the tag's creation
    /// time each come from a reading of the clock of their own.
    pub fn create_with_tag(form: NewObjective) -> (r: (NamedObjectiveInsert, TagInsert))
        ensures
            r.0 == named_objective_insert(form, r.0.id, r.0.created_at, r.0.updated_at),
            r.1.created_at is Some,
            r.1 == objective_tag_insert(form.user_id, r.0.id, r.1.id, r.1.created_at->0),
            uuid_version(r.0.id) == 4,
            uuid_version(r.1.id) == 4,
            is_clock_reading(r.0.created_at),
            is_clock_reading(r.0.updated_at),
            r.1.created_at matches Some(t) && is_clock_reading(t),
    {
        let objective_id = new_v4_id();
        let user_id = form.user_id;
        let objective = NamedObjectiveInsert {
            id: objective_id,
            user_id,
            name: form.name,
            created_at: current_time(),
            updated_at: current_time(),
        };
        let tag = TagInsert {
            id: new_v4_id(),
            user_id,
            name: None,
            ambition_id: None,
            objective_id: Some(objective_id),
            desired_state_id: None,
            action_id: None,
            mindset_id: None,
            created_at: Some(current_time()),
        };
        (objective, tag)
    }

    /// The found objective renamed to `name` and stamped with the current time;
    /// `NotFound` when the lookup found none.
    pub fn update(found: Option<Objective>, name: String) -> (r: Result<Objective, CustomDbErr>)
        ensures
            found is None ==> r == Err::<Objective, CustomDbErr>(CustomDbErr::NotFound),
            found matches Some(o) ==> r matches Ok(b) && b == renamed_objective(o, name, b.updated_at)
                && is_clock_reading(b.updated_at),
    {
        match found {
            None => Err(CustomDbErr::NotFound),
            Some(o) => Ok(Objective { name, updated_at: current_time(), ..o }),
        }
    }

    /// The objective to delete: the found one, or `NotFound`.
    pub fn delete(found: Option<Objective>) -> (r: Result<Objective, CustomDbErr>)
        ensures
            r == found_or_not_found(found),
    {
        require_found(found)
    }
}

pub struct Query;

impl Query {
    /// The objective that the lookup by id and owner found, or `NotFound`.
    pub fn find_by_id_and_user_id(found: Option<Objective>) -> (r: Result<Objective, CustomDbErr>)
        ensures
            r == found_or_not_found(found),
    {
        require_found(found)
    }
}

/// An objective created through this service has the form's owner and name,
/// under the id it is given.
pub proof fn lemma_named_objective_keeps_form(form: NewObjective, id: Id, created_at: Timestamp, updated_at: Timestamp)
    ensures
        ({
            let b = named_objective_insert(form, id, created_at, updated_at);
            &&& b.id == id
            &&& b.user_id == form.user_id
            &&& b.name == form.name
            &&& b.created_at == created_at
            &&& b.updated_at == updated_at
        }),
{
}

/// A rename sets the given name and changes nothing else but the update time.
pub proof fn lemma_rename_sets_only_the_name(o: Objective, name: String, now: Timestamp)
    ensures
        ({
            let b = renamed_objective(o, name, now);
            &&& b.name == name
            &&& b.updated_at == now
            &&& b.id == o.id
            &&& b.user_id == o.user_id
            &&& b.description == o.description
            &&& b.archived == o.archived
            &&& b.created_at == o.created_at
        }),
{
}

} // verus!
