//! Sample ambitions.
use crate::entities::Ambition;
use crate::ids::{new_v4_id, uuid_version, Id};
use crate::time::{current_time, is_clock_reading};
use vstd::prelude::*;

verus! {

/// An unarchived, unordered ambition of `user_id` named "ambition", with a fresh
/// version 4 id, created now.
pub fn ambition(user_id: Id) -> (r: Ambition)
    ensures
        uuid_version(r.id) == 4,
        r.user_id == user_id,
        r.name@ == "ambition"@,
        r.description is None,
        !r.archived,
        r.ordering is None,
        r.updated_at == r.created_at,
        is_clock_reading(r.created_at),
{
    let now = current_time();
    Ambition {
        id: new_v4_id(),
        user_id,
        name: "ambition".to_string(),
        description: None,
        archived: false,
        ordering: None,
        created_at: now,
        updated_at: now,
    }
}

/// `x` with its name set to `name`.
pub open spec fn ambition_with_name(x: Ambition, name: String) -> Ambition {
    Ambition { name, ..x }
}

/// `x` with its description set to `description`.
pub open spec fn ambition_with_description(x: Ambition, description: Option<String>) -> Ambition {
    Ambition { description, ..x }
}

/// `x` with its archived set to `archived`.
pub open spec fn ambition_with_archived(x: Ambition, archived: bool) -> Ambition {
    Ambition { archived, ..x }
}

pub trait AmbitionFactory {
    fn name(self, name: String) -> Ambition;

    fn description(self, description: Option<String>) -> Ambition;

    fn archived(self, archived: bool) -> Ambition;
}

impl AmbitionFactory for Ambition {
    /// The ambition named `name`.
    fn name(self, name: String) -> (r: Ambition)
        ensures
            r == ambition_with_name(self, name),
    {
        Ambition { name, ..self }
    }

    /// The ambition with description `description`.
    fn description(self, description: Option<String>) -> (r: Ambition)
        ensures
            r == ambition_with_description(self, description),
    {
        Ambition { description, ..self }
    }

    /// The ambition with archived flag `archived`.
    fn archived(self, archived: bool) -> (r: Ambition)
        ensures
            r == ambition_with_archived(self, archived),
    {
        Ambition { archived, ..self }
    }
}

/// Setting a sample's name gives it the value asked for and changes no other
/// field.
pub proof fn lemma_ambition_with_name_sets_only_it(x: Ambition, name: String)
    ensures
        ({
            let b = ambition_with_name(x, name);
            &&& b.name == name
            &&& b.id == x.id
            &&& b.user_id == x.user_id
            &&& b.description == x.description
            &&& b.archived == x.archived
            &&& b.ordering == x.ordering
            &&& b.created_at == x.created_at
            &&& b.updated_at == x.updated_at
        }),
{
}

/// Setting a sample's description gives it the value asked for and changes no other
/// field.
pub proof fn lemma_ambition_with_description_sets_only_it(x: Ambition, description: Option<String>)
    ensures
        ({
            let b = ambition_with_description(x, description);
            &&& b.description == description
            &&& b.id == x.id
            &&& b.user_id == x.user_id
            &&& b.name == x.name
            &&& b.archived == x.archived
            &&& b.ordering == x.ordering
            &&& b.created_at == x.created_at
            &&& b.updated_at == x.updated_at
        }),
{
}

/// Setting a sample's archived gives it the value asked for and changes no other
/// field.
pub proof fn lemma_ambition_with_archived_sets_only_it(x: Ambition, archived: bool)
    ensures
        ({
            let b = ambition_with_archived(x, archived);
            &&& b.archived == archived
            &&& b.id == x.id
            &&& b.user_id == x.user_id
            &&& b.name == x.name
            &&& b.description == x.description
            &&& b.ordering == x.ordering
            &&& b.created_at == x.created_at
            &&& b.updated_at == x.updated_at
        }),
{
}

} // verus!
