//! Sample mindsets.
use crate::entities::Mindset;
use crate::ids::{now_v7_id, uuid_version, Id};
use crate::time::{current_time, is_clock_reading};
use vstd::prelude::*;

verus! {

/// An unarchived, unordered mindset of `user_id` named "mindset", with a fresh
/// version 7 id, created now.
pub fn mindset(user_id: Id) -> (r: Mindset)
    ensures
        uuid_version(r.id) == 7,
        r.user_id == user_id,
        r.name@ == "mindset"@,
        r.description is None,
        !r.archived,
        r.ordering is None,
        r.updated_at == r.created_at,
        is_clock_reading(r.created_at),
{
    let now = current_time();
    Mindset {
        id: now_v7_id(),
        user_id,
        name: "mindset".to_string(),
        description: None,
        archived: false,
        ordering: None,
        created_at: now,
        updated_at: now,
    }
}

/// `x` with its name set to `name`.
pub open spec fn mindset_with_name(x: Mindset, name: String) -> Mindset {
    Mindset { name, ..x }
}

/// `x` with its description set to `description`.
pub open spec fn mindset_with_description(x: Mindset, description: Option<String>) -> Mindset {
    Mindset { description, ..x }
}

/// `x` with its archived set to `archived`.
pub open spec fn mindset_with_archived(x: Mindset, archived: bool) -> Mindset {
    Mindset { archived, ..x }
}

/// `x` with its ordering set to `ordering`.
pub open spec fn mindset_with_ordering(x: Mindset, ordering: Option<i32>) -> Mindset {
    Mindset { ordering, ..x }
}

pub trait MindsetFactory {
    fn name(self, name: String) -> Mindset;

    fn description(self, description: Option<String>) -> Mindset;

    fn archived(self, archived: bool) -> Mindset;

    fn ordering(self, ordering: Option<i32>) -> Mindset;
}

impl MindsetFactory for Mindset {
    /// The mindset named `name`.
    fn name(self, name: String) -> (r: Mindset)
        ensures
            r == mindset_with_name(self, name),
    {
        Mindset { name, ..self }
    }

    /// The mindset with description `description`.
    fn description(self, description: Option<String>) -> (r: Mindset)
        ensures
            r == mindset_with_description(self, description),
    {
        Mindset { description, ..self }
    }

    /// The mindset with archived flag `archived`.
    fn archived(self, archived: bool) -> (r: Mindset)
        ensures
            r == mindset_with_archived(self, archived),
    {
        Mindset { archived, ..self }
    }

    /// The mindset with ordering `ordering`.
    fn ordering(self, ordering: Option<i32>) -> (r: Mindset)
        ensures
            r == mindset_with_ordering(self, ordering),
    {
        Mindset { ordering, ..self }
    }
}

/// Setting a sample's name gives it the value asked for and changes no other
/// field.
pub proof fn lemma_mindset_with_name_sets_only_it(x: Mindset, name: String)
    ensures
        ({
            let b = mindset_with_name(x, name);
            &&& b.name == name
            &&& b.id == x.id
            &&& b.user_id == x.user_id
            &&& b.description == x.description
            &&& b.archived == x.archived
            &&& b.ordering == x.ordering
            &&& b.created_at == x.created_at
            &&& b.updated_at == x.updated_at
        }),
{
}

/// Setting a sample's description gives it the value asked for and changes no other
/// field.
pub proof fn lemma_mindset_with_description_sets_only_it(x: Mindset, description: Option<String>)
    ensures
        ({
            let b = mindset_with_description(x, description);
            &&& b.description == description
            &&& b.id == x.id
            &&& b.user_id == x.user_id
            &&& b.name == x.name
            &&& b.archived == x.archived
            &&& b.ordering == x.ordering
            &&& b.created_at == x.created_at
            &&& b.updated_at == x.updated_at
        }),
{
}

/// Setting a sample's archived gives it the value asked for and changes no other
/// field.
pub proof fn lemma_mindset_with_archived_sets_only_it(x: Mindset, archived: bool)
    ensures
        ({
            let b = mindset_with_archived(x, archived);
            &&& b.archived == archived
            &&& b.id == x.id
            &&& b.user_id == x.user_id
            &&& b.name == x.name
            &&& b.description == x.description
            &&& b.ordering == x.ordering
            &&& b.created_at == x.created_at
            &&& b.updated_at == x.updated_at
        }),
{
}

/// Setting a sample's ordering gives it the value asked for and changes no other
/// field.
pub proof fn lemma_mindset_with_ordering_sets_only_it(x: Mindset, ordering: Option<i32>)
    ensures
        ({
            let b = mindset_with_ordering(x, ordering);
            &&& b.ordering == ordering
            &&& b.id == x.id
            &&& b.user_id == x.user_id
            &&& b.name == x.name
            &&& b.description == x.description
            &&& b.archived == x.archived
            &&& b.created_at == x.created_at
            &&& b.updated_at == x.updated_at
        }),
{
}

} // verus!
