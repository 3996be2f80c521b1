//! Sample objectives.
use crate::entities::Objective;
use crate::ids::{new_v4_id, uuid_version, Id};
use crate::time::{current_time, is_clock_reading};
use vstd::prelude::*;

verus! {

/// An unarchived objective of `user_id` named "objective", with a fresh version 4
/// id; its creation and update times are two readings of the clock.
pub fn objective(user_id: Id) -> (r: Objective)
    ensures
        uuid_version(r.id) == 4,
        r.user_id == user_id,
        r.name@ == "objective"@,
        r.description is None,
        !r.archived,
        is_clock_reading(r.created_at),
        is_clock_reading(r.updated_at),
{
    Objective {
        id: new_v4_id(),
        user_id,
        name: "objective".to_string(),
        description: None,
        archived: false,
        created_at: current_time(),
        updated_at: current_time(),
    }
}

/// `x` with its name set to `name`.
pub open spec fn objective_with_name(x: Objective, name: String) -> Objective {
    Objective { name, ..x }
}

/// `x` with its description set to `description`.
pub open spec fn objective_with_description(x: Objective, description: Option<String>) -> Objective {
    Objective { description, ..x }
}

/// `x` with its archived set to `archived`.
pub open spec fn objective_with_archived(x: Objective, archived: bool) -> Objective {
    Objective { archived, ..x }
}

impl Objective {
    /// The objective named `name`.
    pub fn name(self, name: String) -> (r: Objective)
        ensures
            r == objective_with_name(self, name),
    {
        Objective { name, ..self }
    }

    /// The objective with description `description`.
    pub fn description(self, description: Option<String>) -> (r: Objective)
        ensures
            r == objective_with_description(self, description),
    {
        Objective { description, ..self }
    }

    /// The objective with archived flag `archived`.
    pub fn archived(self, archived: bool) -> (r: Objective)
        ensures
            r == objective_with_archived(self, archived),
    {
        Objective { archived, ..self }
    }
}

/// Setting a sample's name gives it the value asked for and changes no other
/// field.
pub proof fn lemma_objective_with_name_sets_only_it(x: Objective, name: String)
    ensures
        ({
            let b = objective_with_name(x, name);
            &&& b.name == name
            &&& b.id == x.id
            &&& b.user_id == x.user_id
            &&& b.description == x.description
            &&& b.archived == x.archived
            &&& b.created_at == x.created_at
            &&& b.updated_at == x.updated_at
        }),
{
}

/// Setting a sample's description gives it the value asked for and changes no other
/// field.
pub proof fn lemma_objective_with_description_sets_only_it(x: Objective, description: Option<String>)
    ensures
        ({
            let b = objective_with_description(x, description);
            &&& b.description == description
            &&& b.id == x.id
            &&& b.user_id == x.user_id
            &&& b.name == x.name
            &&& b.archived == x.archived
            &&& b.created_at == x.created_at
            &&& b.updated_at == x.updated_at
        }),
{
}

/// Setting a sample's archived gives it the value asked for and changes no other
/// field.
pub proof fn lemma_objective_with_archived_sets_only_it(x: Objective, archived: bool)
    ensures
        ({
            let b = objective_with_archived(x, archived);
            &&& b.archived == archived
            &&& b.id == x.id
            &&& b.user_id == x.user_id
            &&& b.name == x.name
            &&& b.description == x.description
            &&& b.created_at == x.created_at
            &&& b.updated_at == x.updated_at
        }),
{
}

} // verus!
