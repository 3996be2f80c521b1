//! Creating, editing, archiving, ordering and deleting mindsets.
use crate::entities::{Mindset, TagInsert};
use crate::error::{found_or_not_found, CustomDbErr};
use crate::ids::{now_v7_id, uuid_version, Id};
use crate::ordering::{order_updates, plan_order_updates};
use crate::time::{current_time, is_clock_reading, Timestamp};
use vstd::prelude::*;

verus! {

/// What a user gives to create a mindset.
#[derive(Clone, Debug, PartialEq, Eq)]
pub struct NewMindset {
    pub name: String,
    pub description: Option<String>,
    pub user_id: Id,
}

/// The fields that creating a mindset sets; the store fills in the others
/// (archived, ordering, timestamps) with their defaults.
#[derive(Clone, Debug, PartialEq, Eq)]
pub struct MindsetInsert {
    pub id: Id,
    pub user_id: Id,
    pub name: String,
    pub description: Option<String>,
}

/// The mindset that `create_with_tag` inserts for `form` under `id`.
pub open spec fn new_mindset_insert(form: NewMindset, id: Id) -> MindsetInsert {
    MindsetInsert {
        id,
        user_id: form.user_id,
        name: form.name,
        description: form.description,
    }
}

/// The tag created with a mindset: it stands for the mindset and belongs to the
/// mindset's user.
pub open spec fn mindset_tag_insert(user_id: Id, mindset_id: Id, tag_id: Id) -> TagInsert {
    TagInsert {
        id: tag_id,
        user_id,
        name: None,
        ambition_id: None,
        objective_id: None,
        desired_state_id: None,
        action_id: None,
        mindset_id: Some(mindset_id),
        created_at: None,
    }
}

/// `a` with a new name and description, stamped with `now`.
pub open spec fn edited_mindset(a: Mindset, name: String, description: Option<String>, now: Timestamp) -> Mindset {
    Mindset { name, description, updated_at: now, ..a }
}

/// `a` with its archived flag set to `archived`, stamped with `now`.
pub open spec fn mindset_with_archived(a: Mindset, archived: bool, now: Timestamp) -> Mindset {
    Mindset { archived, updated_at: now, ..a }
}

pub struct MindsetMutation;

impl MindsetMutation {
    /// The mindset to insert for `form` and the tag that stands for it, under two
    /// fresh version 7 ids.
    pub fn create_with_tag(form: NewMindset) -> (r: (MindsetInsert, TagInsert))
        ensures
            r.0 == new_mindset_insert(form, r.0.id),
            r.1 == mindset_tag_insert(form.user_id, r.0.id, r.1.id),
            uuid_version(r.0.id) == 7,
            uuid_version(r.1.id) == 7,
    {
        let record_id = now_v7_id();
        let user_id = form.user_id;
        let record = MindsetInsert {
            id: record_id,
            user_id,
            name: form.name,
            description: form.description,
        };
        let tag = TagInsert {
            id: now_v7_id(),
            user_id,
            name: None,
            ambition_id: None,
            objective_id: None,
            desired_state_id: None,
            action_id: None,
            mindset_id: Some(record_id),
            created_at: None,
        };
        (record, tag)
    }

    /// The found mindset with a new name and description, stamped with the
    /// current time; `NotFound` when the lookup found none.
    pub fn update(found: Option<Mindset>, name: String, description: Option<String>) -> (r: Result<
        Mindset,
        CustomDbErr,
    >)
        ensures
            found is None ==> r == Err::<Mindset, CustomDbErr>(CustomDbErr::NotFound),
            found matches Some(a) ==> r matches Ok(b) && b == edited_mindset(a, name, description, b.updated_at)
                && is_clock_reading(b.updated_at),
    {
        match found {
            None => Err(CustomDbErr::NotFound),
            Some(a) => Ok(Mindset { name, description, updated_at: current_time(), ..a }),
        }
    }

    /// The mindset to delete: the found one, or `NotFound`.
    pub fn delete(found: Option<Mindset>) -> (r: Result<Mindset, CustomDbErr>)
        ensures
            r == found_or_not_found(found),
    {
        match found {
            Some(a) => Ok(a),
            None => Err(CustomDbErr::NotFound),
        }
    }

    /// The found mindset, archived and stamped with the current time; `NotFound`
    /// when the lookup found none.
    pub fn archive(found: Option<Mindset>) -> (r: Result<Mindset, CustomDbErr>)
        ensures
            found is None ==> r == Err::<Mindset, CustomDbErr>(CustomDbErr::NotFound),
            found matches Some(a) ==> r matches Ok(b) && b == mindset_with_archived(a, true, b.updated_at)
                && is_clock_reading(b.updated_at),
    {
        match found {
            None => Err(CustomDbErr::NotFound),
            Some(a) => Ok(Mindset { archived: true, updated_at: current_time(), ..a }),
        }
    }

    /// The found mindset, no longer archived and stamped with the current time;
    /// `NotFound` when the lookup found none.
    pub fn unarchive(found: Option<Mindset>) -> (r: Result<Mindset, CustomDbErr>)
        ensures
            found is None ==> r == Err::<Mindset, CustomDbErr>(CustomDbErr::NotFound),
            found matches Some(a) ==> r matches Ok(b) && b == mindset_with_archived(a, false, b.updated_at)
                && is_clock_reading(b.updated_at),
    {
        match found {
            None => Err(CustomDbErr::NotFound),
            Some(a) => Ok(Mindset { archived: false, updated_at: current_time(), ..a }),
        }
    }

    /// The new order numbers of the user's mindsets with ids `found` (those that
    /// `ordering` lists): position in `ordering` plus one.
    pub fn bulk_update_ordering(found: &Vec<Id>, ordering: &Vec<Id>) -> (r: Vec<(Id, i32)>)
        ensures
            r@ == order_updates(found@, ordering@),
    {
        plan_order_updates(found, ordering)
    }
}

/// Unarchiving an archived mindset gives back the mindset as it was before it
/// was archived, but for its update time.
pub proof fn lemma_unarchive_undoes_archive(m: Mindset, archived_at: Timestamp, restored_at: Timestamp)
    requires
        !m.archived,
    ensures
        mindset_with_archived(mindset_with_archived(m, true, archived_at), false, restored_at) == (Mindset {
            updated_at: restored_at,
            ..m
        }),
{
}

/// An edit keeps a mindset's id, owner, creation time, archived flag and
/// ordering.
pub proof fn lemma_edit_keeps_identity(
    m: Mindset,
    name: String,
    description: Option<String>,
    now: Timestamp,
)
    ensures
        ({
            let b = edited_mindset(m, name, description, now);
            &&& b.id == m.id
            &&& b.user_id == m.user_id
            &&& b.created_at == m.created_at
            &&& b.archived == m.archived
            &&& b.ordering == m.ordering
        }),
{
}

/// A mindset created from a form has the form's owner, name and description,
/// under the id it is given.
pub proof fn lemma_new_mindset_keeps_form(form: NewMindset, id: Id)
    ensures
        ({
            let m = new_mindset_insert(form, id);
            &&& m.id == id
            &&& m.user_id == form.user_id
            &&& m.name == form.name
            &&& m.description == form.description
        }),
{
}

/// The tag of a new mindset belongs to its owner and stands for that mindset
/// alone.
pub proof fn lemma_mindset_tag_stands_for_it(user_id: Id, item_id: Id, tag_id: Id)
    ensures
        ({
            let t = mindset_tag_insert(user_id, item_id, tag_id);
            &&& t.id == tag_id
            &&& t.user_id == user_id
            &&& t.name is None
            &&& t.ambition_id is None
            &&& t.objective_id is None
            &&& t.desired_state_id is None
            &&& t.action_id is None
            &&& t.mindset_id == Some(item_id)
            &&& t.created_at is None
        }),
{
}

/// An edit sets the given name and description, whatever they are (a missing
/// description clears it), and changes nothing else but the update time.
pub proof fn lemma_edit_sets_given_fields(m: Mindset, name: String, description: Option<String>, now: Timestamp)
    ensures
        ({
            let b = edited_mindset(m, name, description, now);
            &&& b.name == name
            &&& b.description == description
            &&& b.updated_at == now
            &&& b.id == m.id
            &&& b.user_id == m.user_id
            &&& b.archived == m.archived
            &&& b.ordering == m.ordering
            &&& b.created_at == m.created_at
        }),
{
}

/// Archiving or unarchiving sets the archived flag to what is asked and changes
/// nothing else but the update time.
pub proof fn lemma_archiving_sets_only_the_flag(m: Mindset, archived: bool, now: Timestamp)
    ensures
        ({
            let b = mindset_with_archived(m, archived, now);
            &&& b.archived == archived
            &&& b.updated_at == now
            &&& b.id == m.id
            &&& b.user_id == m.user_id
            &&& b.name == m.name
            &&& b.description == m.description
            &&& b.ordering == m.ordering
            &&& b.created_at == m.created_at
        }),
{
}

} // verus!
