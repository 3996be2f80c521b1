//! Creating, editing and deleting objectives.
use crate::entities::{Objective, TagInsert};
use crate::error::{found_or_not_found, CustomDbErr};
use crate::ids::{new_v4_id, uuid_version, Id};
use crate::time::{current_time, is_clock_reading, Timestamp};
use vstd::prelude::*;

verus! {

/// What a user gives to create an objective.
#[derive(Clone, Debug, PartialEq, Eq)]
pub struct NewObjective {
    pub name: String,
    pub description: Option<String>,
    pub user_id: Id,
}

/// The fields that creating an objective sets; the store fills in its archived
/// flag with the default.
#[derive(Clone, Debug, PartialEq, Eq)]
pub struct ObjectiveInsert {
    pub id: Id,
    pub user_id: Id,
    pub name: String,
    pub description: Option<String>,
    pub created_at: Timestamp,
    pub updated_at: Timestamp,
}

/// The objective that `create_with_tag` inserts for `form` under `id` at `now`.
pub open spec fn new_objective_insert(form: NewObjective, id: Id, now: Timestamp) -> ObjectiveInsert {
    ObjectiveInsert {
        id,
        user_id: form.user_id,
        name: form.name,
        description: form.description,
        created_at: now,
        updated_at: now,
    }
}

/// The tag created with an objective, at the same time: it stands for the
/// objective and belongs to the objective's user.
pub open spec fn objective_tag_insert(user_id: Id, objective_id: Id, tag_id: Id, now: Timestamp) -> TagInsert {
    TagInsert {
        id: tag_id,
        user_id,
        name: None,
        ambition_id: None,
        objective_id: Some(objective_id),
        desired_state_id: None,
        action_id: None,
        mindset_id: None,
        created_at: Some(now),
    }
}

/// `o` with a new name and description, stamped with `now`.
pub open spec fn edited_objective(o: Objective, name: String, description: Option<String>, now: Timestamp) -> Objective {
    Objective { name, description, updated_at: now, ..o }
}

pub struct ObjectiveMutation;

impl ObjectiveMutation {
    /// The objective to insert for `form` and the tag that stands for it, under two
    /// fresh version 4 ids, both stamped with one reading of the clock.
    pub fn create_with_tag(form: NewObjective) -> (r: (ObjectiveInsert, TagInsert))
        ensures
            r.0 == new_objective_insert(form, r.0.id, r.0.created_at),
            r.1 == objective_tag_insert(form.user_id, r.0.id, r.1.id, r.0.created_at),
            uuid_version(r.0.id) == 4,
            uuid_version(r.1.id) == 4,
            is_clock_reading(r.0.created_at),
    {
        let now = current_time();
        let objective_id = new_v4_id();
        let user_id = form.user_id;
        let objective = ObjectiveInsert {
            id: objective_id,
            user_id,
            name: form.name,
            description: form.description,
            created_at: now,
            updated_at: now,
        };
        let tag = TagInsert {
            id: new_v4_id(),
            user_id,
            name: None,
            ambition_id: None,
            objective_id: Some(objective_id),
            desired_state_id: None,
            action_id: None,
            mindset_id: None,
            created_at: Some(now),
        };
        (objective, tag)
    }

    /// The found objective with a new name and description, stamped with the
    /// current time; `NotFound` when the lookup found none.
    pub fn update(found: Option<Objective>, name: String, description: Option<String>) -> (r: Result<
        Objective,
        CustomDbErr,
    >)
        ensures
            found is None ==> r == Err::<Objective, CustomDbErr>(CustomDbErr::NotFound),
            found matches Some(o) ==> r matches Ok(b) && b == edited_objective(o, name, description, b.updated_at)
                && is_clock_reading(b.updated_at),
    {
        match found {
            None => Err(CustomDbErr::NotFound),
            Some(o) => Ok(Objective { name, description, updated_at: current_time(), ..o }),
        }
    }

    /// The objective to delete: the found one, or `NotFound`.
    pub fn delete(found: Option<Objective>) -> (r: Result<Objective, CustomDbErr>)
        ensures
            r == found_or_not_found(found),
    {
        match found {
            Some(o) => Ok(o),
            None => Err(CustomDbErr::NotFound),
        }
    }
}

/// An objective created from a form has the form's owner, name and description;
/// it is created and last updated at the same time.
pub proof fn lemma_new_objective_keeps_form(form: NewObjective, id: Id, now: Timestamp)
    ensures
        ({
            let b = new_objective_insert(form, id, now);
            &&& b.id == id
            &&& b.user_id == form.user_id
            &&& b.name == form.name
            &&& b.description == form.description
            &&& b.created_at == now
            &&& b.updated_at == now
        }),
{
}

/// The tag of a new objective belongs to its owner, stands for that objective
/// alone and is created with it.
pub proof fn lemma_objective_tag_stands_for_it(user_id: Id, item_id: Id, tag_id: Id, now: Timestamp)
    ensures
        ({
            let t = objective_tag_insert(user_id, item_id, tag_id, now);
            &&& t.id == tag_id
            &&& t.user_id == user_id
            &&& t.name is None
            &&& t.ambition_id is None
            &&& t.objective_id == Some(item_id)
            &&& t.desired_state_id is None
            &&& t.action_id is None
            &&& t.mindset_id is None
            &&& t.created_at == Some(now)
        }),
{
}

/// An edit sets the given name and description, whatever they are (a missing
/// description clears it), and changes nothing else but the update time.
pub proof fn lemma_edit_sets_given_fields(o: Objective, name: String, description: Option<String>, now: Timestamp)
    ensures
        ({
            let b = edited_objective(o, name, description, now);
            &&& b.name == name
            &&& b.description == description
            &&& b.updated_at == now
            &&& b.id == o.id
            &&& b.user_id == o.user_id
            &&& b.archived == o.archived
            &&& b.created_at == o.created_at
        }),
{
}

} // verus!
