//! The first version of the ambition service, where a missing ambition is no
//! error: an update of it gives nothing and a deletion of it does nothing.
use crate::entities::{Ambition, TagInsert};
use crate::ids::{new_v4_id, uuid_version, Id};
use crate::services::ambition_mutation::edited_ambition;
use crate::time::{current_time, is_clock_reading};
use vstd::prelude::*;

verus! {

/// What a user gives to create an ambition.
#[derive(Clone, Debug, PartialEq, Eq)]
pub struct NewAmbition {
    pub name: String,
    pub description: Option<String>,
    pub user_id: Id,
}

/// The fields that creating an ambition sets; the store fills in the others
/// (archived, ordering, timestamps) with their defaults.
#[derive(Clone, Debug, PartialEq, Eq)]
pub struct NamedAmbitionInsert {
    pub id: Id,
    pub user_id: Id,
    pub name: String,
    pub description: Option<String>,
}

/// The ambition created from `form` under `id`.
pub open spec fn named_ambition_insert(form: NewAmbition, id: Id) -> NamedAmbitionInsert {
    NamedAmbitionInsert { id, user_id: form.user_id, name: form.name, description: form.description }
}

/// The tag created with an ambition: it stands for the ambition and belongs to
/// the ambition's user.
pub open spec fn ambition_tag(user_id: Id, ambition_id: Id, tag_id: Id) -> TagInsert {
    TagInsert {
        id: tag_id,
        user_id,
        name: None,
        ambition_id: Some(ambition_id),
        objective_id: None,
        desired_state_id: None,
        action_id: None,
        mindset_id: None,
        created_at: None,
    }
}

pub struct Mutation;

impl Mutation {
    /// The ambition to insert for `form` and the tag that stands for it, under two
    /// fresh version 4 ids.
    pub fn create_with_tag(form: NewAmbition) -> (r: (NamedAmbitionInsert, TagInsert))
        ensures
            r.0 == named_ambition_insert(form, r.0.id),
            r.1 == ambition_tag(form.user_id, r.0.id, r.1.id),
            uuid_version(r.0.id) == 4,
            uuid_version(r.1.id) == 4,
    {
        let ambition_id = new_v4_id();
        let user_id = form.user_id;
        let ambition = NamedAmbitionInsert {
            id: ambition_id,
            user_id,
            name: form.name,
            description: form.description,
        };
        let tag = TagInsert {
            id: new_v4_id(),
            user_id,
            name: None,
            ambition_id: Some(ambition_id),
            objective_id: None,
            desired_state_id: None,
            action_id: None,
            mindset_id: None,
            created_at: None,
        };
        (ambition, tag)
    }

    /// The found ambition with a new name and description, stamped with the
    /// current time; nothing when the lookup found none.
    pub fn update(found: Option<Ambition>, name: String, description: Option<String>) -> (r: Option<Ambition>)
        ensures
            found is None ==> r is None,
            found matches Some(a) ==> r matches Some(b) && b == edited_ambition(a, name, description, b.updated_at)
                && is_clock_reading(b.updated_at),
    {
        match found {
            None => None,
            Some(a) => Some(Ambition { name, description, updated_at: current_time(), ..a }),
        }
    }

    /// The ambition to delete, if the lookup found one; a missing one is no error.
    pub fn delete(found: Option<Ambition>) -> (r: Option<Ambition>)
        ensures
            r == found,
    {
        found
    }
}

/// An ambition created through this service has the form's owner, name and
/// description, under the id it is given.
pub proof fn lemma_named_ambition_keeps_form(form: NewAmbition, id: Id)
    ensures
        ({
            let a = named_ambition_insert(form, id);
            &&& a.id == id
            &&& a.user_id == form.user_id
            &&& a.name == form.name
            &&& a.description == form.description
        }),
{
}

/// The tag of a new ambition belongs to its owner and stands for that ambition
/// alone.
pub proof fn lemma_ambition_tag_stands_for_the_ambition(user_id: Id, item_id: Id, tag_id: Id)
    ensures
        ({
            let t = ambition_tag(user_id, item_id, tag_id);
            &&& t.id == tag_id
            &&& t.user_id == user_id
            &&& t.name is None
            &&& t.ambition_id == Some(item_id)
            &&& t.objective_id is None
            &&& t.desired_state_id is None
            &&& t.action_id is None
            &&& t.mindset_id is None
            &&& t.created_at is None
        }),
{
}

} // verus!
