//! Creating, editing, archiving, ordering and deleting desired states.
use crate::entities::{DesiredState, TagInsert};
use crate::error::{found_or_not_found, CustomDbErr};
use crate::ids::{now_v7_id, uuid_version, Id};
use crate::ordering::{order_updates, plan_order_updates};
use crate::time::{current_time, is_clock_reading, Timestamp};
use vstd::prelude::*;

verus! {

/// What a user gives to create a desired state.
#[derive(Clone, Debug, PartialEq, Eq)]
pub struct NewDesiredState {
    pub name: String,
    pub description: Option<String>,
    pub category_id: Option<Id>,
    pub user_id: Id,
}

/// The fields that creating a desired state sets; the store fills in the others
/// (archived, ordering, timestamps) with their defaults.
#[derive(Clone, Debug, PartialEq, Eq)]
pub struct DesiredStateInsert {
    pub id: Id,
    pub user_id: Id,
    pub name: String,
    pub description: Option<String>,
    pub category_id: Option<Id>,
}

/// The desired state that `create_with_tag` inserts for `form` under `id`.
pub open spec fn new_desired_state_insert(form: NewDesiredState, id: Id) -> DesiredStateInsert {
    DesiredStateInsert {
        id,
        user_id: form.user_id,
        name: form.name,
        description: form.description,
        category_id: form.category_id,
    }
}

/// The tag created with a desired state: it stands for the desired state and
/// belongs to the desired state's user.
pub open spec fn desired_state_tag_insert(user_id: Id, desired_state_id: Id, tag_id: Id) -> TagInsert {
    TagInsert {
        id: tag_id,
        user_id,
        name: None,
        ambition_id: None,
        objective_id: None,
        desired_state_id: Some(desired_state_id),
        action_id: None,
        mindset_id: None,
        created_at: None,
    }
}

/// `a` with a new name, description and category, stamped with `now`.
pub open spec fn edited_desired_state(
    a: DesiredState,
    name: String,
    description: Option<String>,
    category_id: Option<Id>,
    now: Timestamp,
) -> DesiredState {
    DesiredState { name, description, category_id, updated_at: now, ..a }
}

/// `a` with its archived flag set to `archived`, stamped with `now`.
pub open spec fn desired_state_with_archived(a: DesiredState, archived: bool, now: Timestamp) -> DesiredState {
    DesiredState { archived, updated_at: now, ..a }
}

pub struct DesiredStateMutation;

impl DesiredStateMutation {
    /// The desired state to insert for `form` and the tag that stands for it, under two
    /// fresh version 7 ids.
    pub fn create_with_tag(form: NewDesiredState) -> (r: (DesiredStateInsert, TagInsert))
        ensures
            r.0 == new_desired_state_insert(form, r.0.id),
            r.1 == desired_state_tag_insert(form.user_id, r.0.id, r.1.id),
            uuid_version(r.0.id) == 7,
            uuid_version(r.1.id) == 7,
    {
        let record_id = now_v7_id();
        let user_id = form.user_id;
        let record = DesiredStateInsert {
            id: record_id,
            user_id,
            name: form.name,
            description: form.description,
            category_id: form.category_id,
        };
        let tag = TagInsert {
            id: now_v7_id(),
            user_id,
            name: None,
            ambition_id: None,
            objective_id: None,
            desired_state_id: Some(record_id),
            action_id: None,
            mindset_id: None,
            created_at: None,
        };
        (record, tag)
    }

    /// The found desired state with a new name, description and category, stamped
    /// with the current time; `NotFound` when the lookup found none.
    pub fn update(
        found: Option<DesiredState>,
        name: String,
        description: Option<String>,
        category_id: Option<Id>,
    ) -> (r: Result<DesiredState, CustomDbErr>)
        ensures
            found is None ==> r == Err::<DesiredState, CustomDbErr>(CustomDbErr::NotFound),
            found matches Some(a) ==> r matches Ok(b) && b == edited_desired_state(
                a,
                name,
                description,
                category_id,
                b.updated_at,
            ) && is_clock_reading(b.updated_at),
    {
        match found {
            None => Err(CustomDbErr::NotFound),
            Some(a) => Ok(DesiredState { name, description, category_id, updated_at: current_time(), ..a }),
        }
    }

    /// The desired state to delete: the found one, or `NotFound`.
    pub fn delete(found: Option<DesiredState>) -> (r: Result<DesiredState, CustomDbErr>)
        ensures
            r == found_or_not_found(found),
    {
        match found {
            Some(a) => Ok(a),
            None => Err(CustomDbErr::NotFound),
        }
    }

    /// The found desired state, archived and stamped with the current time; `NotFound`
    /// when the lookup found none.
    pub fn archive(found: Option<DesiredState>) -> (r: Result<DesiredState, CustomDbErr>)
        ensures
            found is None ==> r == Err::<DesiredState, CustomDbErr>(CustomDbErr::NotFound),
            found matches Some(a) ==> r matches Ok(b) && b == desired_state_with_archived(a, true, b.updated_at)
                && is_clock_reading(b.updated_at),
    {
        match found {
            None => Err(CustomDbErr::NotFound),
            Some(a) => Ok(DesiredState { archived: true, updated_at: current_time(), ..a }),
        }
    }

    /// The found desired state, no longer archived and stamped with the current time;
    /// `NotFound` when the lookup found none.
    pub fn unarchive(found: Option<DesiredState>) -> (r: Result<DesiredState, CustomDbErr>)
        ensures
            found is None ==> r == Err::<DesiredState, CustomDbErr>(CustomDbErr::NotFound),
            found matches Some(a) ==> r matches Ok(b) && b == desired_state_with_archived(a, false, b.updated_at)
                && is_clock_reading(b.updated_at),
    {
        match found {
            None => Err(CustomDbErr::NotFound),
            Some(a) => Ok(DesiredState { archived: false, updated_at: current_time(), ..a }),
        }
    }

    /// The new order numbers of the user's desired states with ids `found` (those that
    /// `ordering` lists): position in `ordering` plus one.
    pub fn bulk_update_ordering(found: &Vec<Id>, ordering: &Vec<Id>) -> (r: Vec<(Id, i32)>)
        ensures
            r@ == order_updates(found@, ordering@),
    {
        plan_order_updates(found, ordering)
    }
}

/// Unarchiving an archived desired state gives back the desired state as it was before it
/// was archived, but for its update time.
pub proof fn lemma_unarchive_undoes_archive(d: DesiredState, archived_at: Timestamp, restored_at: Timestamp)
    requires
        !d.archived,
    ensures
        desired_state_with_archived(desired_state_with_archived(d, true, archived_at), false, restored_at) == (DesiredState {
            updated_at: restored_at,
            ..d
        }),
{
}

/// An edit keeps a desired state's id, owner, creation time, archived flag and
/// ordering.
pub proof fn lemma_edit_keeps_identity(
    d: DesiredState,
    name: String,
    description: Option<String>,
    category_id: Option<Id>,
    now: Timestamp,
)
    ensures
        ({
            let b = edited_desired_state(d, name, description, category_id, now);
            &&& b.id == d.id
            &&& b.user_id == d.user_id
            &&& b.created_at == d.created_at
            &&& b.archived == d.archived
            &&& b.ordering == d.ordering
        }),
{
}

/// A desired state created from a form has the form's owner, name, description
/// and category, under the id it is given.
pub proof fn lemma_new_desired_state_keeps_form(form: NewDesiredState, id: Id)
    ensures
        ({
            let d = new_desired_state_insert(form, id);
            &&& d.id == id
            &&& d.user_id == form.user_id
            &&& d.name == form.name
            &&& d.description == form.description
            &&& d.category_id == form.category_id
        }),
{
}

/// The tag of a new desired state belongs to its owner and stands for that
/// desired state alone.
pub proof fn lemma_desired_state_tag_stands_for_it(user_id: Id, item_id: Id, tag_id: Id)
    ensures
        ({
            let t = desired_state_tag_insert(user_id, item_id, tag_id);
            &&& t.id == tag_id
            &&& t.user_id == user_id
            &&& t.name is None
            &&& t.ambition_id is None
            &&& t.objective_id is None
            &&& t.desired_state_id == Some(item_id)
            &&& t.action_id is None
            &&& t.mindset_id is None
            &&& t.created_at is None
        }),
{
}

/// An edit sets the given name, description and category, whatever they are (a
/// missing one clears it), and changes nothing else but the update time.
pub proof fn lemma_edit_sets_given_fields(d: DesiredState, name: String, description: Option<String>, category_id: Option<Id>, now: Timestamp)
    ensures
        ({
            let b = edited_desired_state(d, name, description, category_id, now);
            &&& b.name == name
            &&& b.description == description
            &&& b.category_id == category_id
            &&& b.updated_at == now
            &&& b.id == d.id
            &&& b.user_id == d.user_id
            &&& b.archived == d.archived
            &&& b.ordering == d.ordering
            &&& b.created_at == d.created_at
        }),
{
}

/// Archiving or unarchiving sets the archived flag to what is asked and changes
/// nothing else but the update time.
pub proof fn lemma_archiving_sets_only_the_flag(d: DesiredState, archived: bool, now: Timestamp)
    ensures
        ({
            let b = desired_state_with_archived(d, archived, now);
            &&& b.archived == archived
            &&& b.updated_at == now
            &&& b.id == d.id
            &&& b.user_id == d.user_id
            &&& b.name == d.name
            &&& b.description == d.description
            &&& b.category_id == d.category_id
            &&& b.ordering == d.ordering
            &&& b.created_at == d.created_at
        }),
{
}

} // verus!
