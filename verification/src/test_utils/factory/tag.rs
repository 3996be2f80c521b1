//! Sample plain tags.
use crate::entities::TagInsert;
use crate::ids::{now_v7_id, uuid_version, Id};
use vstd::prelude::*;

verus! {

/// A plain tag of `user_id` named "plain_tag", with a fresh version 7 id; the
/// store gives it its creation time.
pub fn tag(user_id: Id) -> (r: TagInsert)
    ensures
        uuid_version(r.id) == 7,
        r.user_id == user_id,
        r.name matches Some(n) && n@ == "plain_tag"@,
        r.ambition_id is None,
        r.objective_id is None,
        r.desired_state_id is None,
        r.action_id is None,
        r.mindset_id is None,
        r.created_at is None,
{
    TagInsert {
        id: now_v7_id(),
        user_id,
        name: Some("plain_tag".to_string()),
        ambition_id: None,
        objective_id: None,
        desired_state_id: None,
        action_id: None,
        mindset_id: None,
        created_at: None,
    }
}

/// `x` with its name set to `name`.
pub open spec fn tag_insert_with_name(x: TagInsert, name: Option<String>) -> TagInsert {
    TagInsert { name, ..x }
}

pub trait TagFactory {
    fn name(self, name: Option<String>) -> TagInsert;
}

impl TagFactory for TagInsert {
    /// The tag with name `name`.
    fn name(self, name: Option<String>) -> (r: TagInsert)
        ensures
            r == tag_insert_with_name(self, name),
    {
        TagInsert { name, ..self }
    }
}

/// Setting a sample's name gives it the value asked for and changes no other
/// field.
pub proof fn lemma_tag_insert_with_name_sets_only_it(x: TagInsert, name: Option<String>)
    ensures
        ({
            let b = tag_insert_with_name(x, name);
            &&& b.name == name
            &&& b.id == x.id
            &&& b.user_id == x.user_id
            &&& b.ambition_id == x.ambition_id
            &&& b.objective_id == x.objective_id
            &&& b.desired_state_id == x.desired_state_id
            &&& b.action_id == x.action_id
            &&& b.mindset_id == x.mindset_id
            &&& b.created_at == x.created_at
        }),
{
}

} // verus!
