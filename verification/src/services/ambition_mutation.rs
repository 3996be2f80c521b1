//! Creating, editing, archiving, ordering and deleting ambitions.
use crate::entities::{Ambition, TagInsert};
use crate::error::{found_or_not_found, CustomDbErr};
use crate::ids::{new_v4_id, uuid_version, Id};
use crate::ordering::{order_updates, plan_order_updates};
use crate::time::{current_time, is_clock_reading, Timestamp};
use vstd::prelude::*;

verus! {

/// What a user gives to create an ambition.
#[derive(Clone, Debug, PartialEq, Eq)]
pub struct NewAmbition {
    pub name: String,
    pub description: Option<String>,
    pub user_id: Id,
}

/// The fields that creating an ambition sets; the store leaves its ordering
/// unset.
#[derive(Clone, Debug, PartialEq, Eq)]
pub struct AmbitionInsert {
    pub id: Id,
    pub user_id: Id,
    pub name: String,
    pub description: Option<String>,
    pub archived: bool,
    pub created_at: Timestamp,
    pub updated_at: Timestamp,
}

/// The ambition that `create_with_tag` inserts for `form` under `id` at `now`:
/// not archived.
pub open spec fn new_ambition_insert(form: NewAmbition, id: Id, now: Timestamp) -> AmbitionInsert {
    AmbitionInsert {
        id,
        user_id: form.user_id,
        name: form.name,
        description: form.description,
        archived: false,
        created_at: now,
        updated_at: now,
    }
}

/// The tag created with an ambition, at the same time: it stands for the
/// ambition and belongs to the ambition's user.
pub open spec fn ambition_tag_insert(user_id: Id, ambition_id: Id, tag_id: Id, now: Timestamp) -> TagInsert {
    TagInsert {
        id: tag_id,
        user_id,
        name: None,
        ambition_id: Some(ambition_id),
        objective_id: None,
        desired_state_id: None,
        action_id: None,
        mindset_id: None,
        created_at: Some(now),
    }
}

/// `a` with a new name and description, stamped with `now`.
pub open spec fn edited_ambition(a: Ambition, name: String, description: Option<String>, now: Timestamp) -> Ambition {
    Ambition { name, description, updated_at: now, ..a }
}

/// `a` with its archived flag set to `archived`, stamped with `now`.
pub open spec fn ambition_with_archived(a: Ambition, archived: bool, now: Timestamp) -> Ambition {
    Ambition { archived, updated_at: now, ..a }
}

pub struct AmbitionMutation;

impl AmbitionMutation {
    /// The ambition to insert for `form` and the tag that stands for it, under two
    /// fresh version 4 ids, both stamped with one reading of the clock.
    pub fn create_with_tag(form: NewAmbition) -> (r: (AmbitionInsert, TagInsert))
        ensures
            r.0 == new_ambition_insert(form, r.0.id, r.0.created_at),
            r.1 == ambition_tag_insert(form.user_id, r.0.id, r.1.id, r.0.created_at),
            uuid_version(r.0.id) == 4,
            uuid_version(r.1.id) == 4,
            is_clock_reading(r.0.created_at),
    {
        let now = current_time();
        let ambition_id = new_v4_id();
        let user_id = form.user_id;
        let ambition = AmbitionInsert {
            id: ambition_id,
            user_id,
            name: form.name,
            description: form.description,
            archived: false,
            created_at: now,
            updated_at: now,
        };
        let tag = TagInsert {
            id: new_v4_id(),
            user_id,
            name: None,
            ambition_id: Some(ambition_id),
            objective_id: None,
            desired_state_id: None,
            action_id: None,
            mindset_id: None,
            created_at: Some(now),
        };
        (ambition, tag)
    }

    /// The found ambition with a new name and description, stamped with the
    /// current time; `NotFound` when the lookup found none.
    pub fn update(found: Option<Ambition>, name: String, description: Option<String>) -> (r: Result<
        Ambition,
        CustomDbErr,
    >)
        ensures
            found is None ==> r == Err::<Ambition, CustomDbErr>(CustomDbErr::NotFound),
            found matches Some(a) ==> r matches Ok(b) && b == edited_ambition(a, name, description, b.updated_at)
                && is_clock_reading(b.updated_at),
    {
        match found {
            None => Err(CustomDbErr::NotFound),
            Some(a) => Ok(Ambition { name, description, updated_at: current_time(), ..a }),
        }
    }

    /// The ambition to delete: the found one, or `NotFound`.
    pub fn delete(found: Option<Ambition>) -> (r: Result<Ambition, CustomDbErr>)
        ensures
            r == found_or_not_found(found),
    {
        match found {
            Some(a) => Ok(a),
            None => Err(CustomDbErr::NotFound),
        }
    }

    /// The found ambition, archived and stamped with the current time; `NotFound`
    /// when the lookup found none.
    pub fn archive(found: Option<Ambition>) -> (r: Result<Ambition, CustomDbErr>)
        ensures
            found is None ==> r == Err::<Ambition, CustomDbErr>(CustomDbErr::NotFound),
            found matches Some(a) ==> r matches Ok(b) && b == ambition_with_archived(a, true, b.updated_at)
                && is_clock_reading(b.updated_at),
    {
        match found {
            None => Err(CustomDbErr::NotFound),
            Some(a) => Ok(Ambition { archived: true, updated_at: current_time(), ..a }),
        }
    }

    /// The found ambition, no longer archived and stamped with the current time;
    /// `NotFound` when the lookup found none.
    pub fn unarchive(found: Option<Ambition>) -> (r: Result<Ambition, CustomDbErr>)
        ensures
            found is None ==> r == Err::<Ambition, CustomDbErr>(CustomDbErr::NotFound),
            found matches Some(a) ==> r matches Ok(b) && b == ambition_with_archived(a, false, b.updated_at)
                && is_clock_reading(b.updated_at),
    {
        match found {
            None => Err(CustomDbErr::NotFound),
            Some(a) => Ok(Ambition { archived: false, updated_at: current_time(), ..a }),
        }
    }

    /// The new order numbers of the user's ambitions with ids `found` (those that
    /// `ordering` lists): position in `ordering` plus one.
    pub fn bulk_update_ordering(found: &Vec<Id>, ordering: &Vec<Id>) -> (r: Vec<(Id, i32)>)
        ensures
            r@ == order_updates(found@, ordering@),
    {
        plan_order_updates(found, ordering)
    }
}

/// Unarchiving an archived ambition gives back the ambition as it was before it
/// was archived, but for its update time.
pub proof fn lemma_unarchive_undoes_archive(a: Ambition, archived_at: Timestamp, restored_at: Timestamp)
    requires
        !a.archived,
    ensures
        ambition_with_archived(ambition_with_archived(a, true, archived_at), false, restored_at) == (Ambition {
            updated_at: restored_at,
            ..a
        }),
{
}

/// An edit keeps an ambition's id, owner, creation time, archived flag and
/// ordering.
pub proof fn lemma_edit_keeps_identity(
    a: Ambition,
    name: String,
    description: Option<String>,
    now: Timestamp,
)
    ensures
        ({
            let b = edited_ambition(a, name, description, now);
            &&& b.id == a.id
            &&& b.user_id == a.user_id
            &&& b.created_at == a.created_at
            &&& b.archived == a.archived
            &&& b.ordering == a.ordering
        }),
{
}

/// An ambition created from a form has the form's owner, name and description;
/// it is not archived, and it is created and last updated at the same time.
pub proof fn lemma_new_ambition_keeps_form(form: NewAmbition, id: Id, now: Timestamp)
    ensures
        ({
            let a = new_ambition_insert(form, id, now);
            &&& a.id == id
            &&& a.user_id == form.user_id
            &&& a.name == form.name
            &&& a.description == form.description
            &&& !a.archived
            &&& a.created_at == now
            &&& a.updated_at == now
        }),
{
}

/// The tag of a new ambition belongs to its owner, stands for that ambition alone
/// and is created with it.
pub proof fn lemma_ambition_tag_stands_for_the_ambition(user_id: Id, item_id: Id, tag_id: Id, now: Timestamp)
    ensures
        ({
            let t = ambition_tag_insert(user_id, item_id, tag_id, now);
            &&& t.id == tag_id
            &&& t.user_id == user_id
            &&& t.name is None
            &&& t.ambition_id == Some(item_id)
            &&& t.objective_id is None
            &&& t.desired_state_id is None
            &&& t.action_id is None
            &&& t.mindset_id is None
            &&& t.created_at == Some(now)
        }),
{
}

/// An edit sets the given name and description, whatever they are (a missing
/// description clears it), and changes nothing else but the update time.
pub proof fn lemma_edit_sets_given_fields(a: Ambition, name: String, description: Option<String>, now: Timestamp)
    ensures
        ({
            let b = edited_ambition(a, name, description, now);
            &&& b.name == name
            &&& b.description == description
            &&& b.updated_at == now
            &&& b.id == a.id
            &&& b.user_id == a.user_id
            &&& b.archived == a.archived
            &&& b.ordering == a.ordering
            &&& b.created_at == a.created_at
        }),
{
}

/// Archiving or unarchiving sets the archived flag to what is asked and changes
/// nothing else but the update time.
pub proof fn lemma_archiving_sets_only_the_flag(a: Ambition, archived: bool, now: Timestamp)
    ensures
        ({
            let b = ambition_with_archived(a, archived, now);
            &&& b.archived == archived
            &&& b.updated_at == now
            &&& b.id == a.id
            &&& b.user_id == a.user_id
            &&& b.name == a.name
            &&& b.description == a.description
            &&& b.ordering == a.ordering
            &&& b.created_at == a.created_at
        }),
{
}

} // verus!
