//! Creating and renaming plain tags.
use crate::entities::{Tag, TagInsert, TagType, TagVisible};
use crate::ids::{now_v7_id, uuid_version, Id};
use vstd::prelude::*;

verus! {

/// What a user gives to create a plain tag.
#[derive(Clone, Debug, PartialEq, Eq)]
pub struct NewTag {
    pub name: String,
    pub user_id: Id,
}

/// What a user gives to rename a plain tag.
#[derive(Clone, Debug, PartialEq, Eq)]
pub struct UpdateTag {
    pub name: String,
}

/// The plain tag that `create_plain_tag` inserts for `form` under `id`: named,
/// standing for nothing, its creation time left to the store.
pub open spec fn plain_tag_insert(form: NewTag, id: Id) -> TagInsert {
    TagInsert {
        id,
        user_id: form.user_id,
        name: Some(form.name),
        ambition_id: None,
        objective_id: None,
        desired_state_id: None,
        action_id: None,
        mindset_id: None,
        created_at: None,
    }
}

/// `tag` renamed as `form` asks.
pub open spec fn renamed_tag(tag: Tag, form: UpdateTag) -> Tag {
    Tag { name: Some(form.name), ..tag }
}

/// How the user sees a plain tag (one that has a name).
pub open spec fn visible_plain_tag(tag: Tag) -> TagVisible {
    TagVisible { id: tag.id, name: tag.name->0, tag_type: TagType::Plain, created_at: tag.created_at }
}

pub struct TagMutation;

impl TagMutation {
    /// The plain tag to insert for `form`, under a fresh version 7 id.
    pub fn create_plain_tag(form: NewTag) -> (r: TagInsert)
        ensures
            r == plain_tag_insert(form, r.id),
            uuid_version(r.id) == 7,
    {
        TagInsert {
            id: now_v7_id(),
            user_id: form.user_id,
            name: Some(form.name),
            ambition_id: None,
            objective_id: None,
            desired_state_id: None,
            action_id: None,
            mindset_id: None,
            created_at: None,
        }
    }

    /// `tag` renamed as `form` says.
    pub fn update(tag: Tag, form: UpdateTag) -> (r: Tag)
        ensures
            r == renamed_tag(tag, form),
    {
        Tag { name: Some(form.name), ..tag }
    }

    /// A stored plain tag as its user sees it.
    pub fn plain_tag_visible(tag: Tag) -> (r: TagVisible)
        requires
            tag.name is Some,
        ensures
            r == visible_plain_tag(tag),
    {
        let name = match tag.name {
            Some(n) => n,
            None => String::new(),
        };
        TagVisible { id: tag.id, name, tag_type: TagType::Plain, created_at: tag.created_at }
    }
}

/// A new plain tag carries the given name, belongs to the form's user and stands
/// for no item.
pub proof fn lemma_plain_tag_keeps_form(form: NewTag, id: Id)
    ensures
        ({
            let t = plain_tag_insert(form, id);
            &&& t.id == id
            &&& t.user_id == form.user_id
            &&& t.name == Some(form.name)
            &&& t.ambition_id is None
            &&& t.objective_id is None
            &&& t.desired_state_id is None
            &&& t.action_id is None
            &&& t.mindset_id is None
            &&& t.created_at is None
        }),
{
}

/// Renaming a tag sets the given name and changes nothing else.
pub proof fn lemma_rename_sets_only_the_name(tag: Tag, form: UpdateTag)
    ensures
        ({
            let t = renamed_tag(tag, form);
            &&& t.name == Some(form.name)
            &&& t.id == tag.id
            &&& t.user_id == tag.user_id
            &&& t.ambition_id == tag.ambition_id
            &&& t.objective_id == tag.objective_id
            &&& t.desired_state_id == tag.desired_state_id
            &&& t.action_id == tag.action_id
            &&& t.mindset_id == tag.mindset_id
            &&& t.created_at == tag.created_at
        }),
{
}

/// A plain tag is shown with its own id, name and creation time, as a plain tag.
pub proof fn lemma_visible_tag_shows_the_tag(tag: Tag)
    requires
        tag.name is Some,
    ensures
        ({
            let v = visible_plain_tag(tag);
            &&& v.id == tag.id
            &&& Some(v.name) == tag.name
            &&& v.tag_type == TagType::Plain
            &&& v.created_at == tag.created_at
        }),
{
}


} // verus!
