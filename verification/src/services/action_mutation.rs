//! Creating, editing, archiving, ordering and deleting actions.
use crate::entities::{Action, ActionTrackType, TagInsert};
use crate::error::{found_or_not_found, CustomDbErr};
use crate::ids::{now_v7_id, uuid_version, Id};
use crate::ordering::{order_updates, plan_order_updates};
use crate::time::{current_time, is_clock_reading, Timestamp};
use vstd::prelude::*;

verus! {

/// What a user gives to create an action.
#[derive(Clone, Debug, PartialEq, Eq)]
pub struct NewAction {
    pub name: String,
    pub description: Option<String>,
    pub track_type: ActionTrackType,
    pub user_id: Id,
}

/// The fields that creating an action sets; the store fills in the others
/// (archived, ordering, trackable, color, timestamps) with their defaults. A
/// `track_type` of `None` is left to the store as well.
#[derive(Clone, Debug, PartialEq, Eq)]
pub struct ActionInsert {
    pub id: Id,
    pub user_id: Id,
    pub name: String,
    pub description: Option<String>,
    pub track_type: Option<ActionTrackType>,
}

/// The action that `create_with_tag` inserts for `form`, under id `id`.
pub open spec fn new_action_insert(form: NewAction, id: Id) -> ActionInsert {
    ActionInsert {
        id,
        user_id: form.user_id,
        name: form.name,
        description: form.description,
        track_type: Some(form.track_type),
    }
}

/// The tag created with an action: it stands for the action and belongs to the
/// action's user.
pub open spec fn action_tag_insert(user_id: Id, action_id: Id, tag_id: Id) -> TagInsert {
    TagInsert {
        id: tag_id,
        user_id,
        name: None,
        ambition_id: None,
        objective_id: None,
        desired_state_id: None,
        action_id: Some(action_id),
        mindset_id: None,
        created_at: None,
    }
}

/// `a` after an edit: name and description replaced, `trackable` and `color`
/// replaced when given, and stamped with `now`.
pub open spec fn edited_action(
    a: Action,
    name: String,
    description: Option<String>,
    trackable: Option<bool>,
    color: Option<String>,
    now: Timestamp,
) -> Action {
    Action {
        name,
        description,
        trackable: match trackable {
            Some(t) => t,
            None => a.trackable,
        },
        color: match color {
            Some(c) => c,
            None => a.color,
        },
        updated_at: now,
        ..a
    }
}

/// `a` with track type `track_type`, changed at `now`.
pub open spec fn with_track_type(a: Action, track_type: ActionTrackType, now: Timestamp) -> Action {
    Action { track_type, updated_at: now, ..a }
}

/// `a` with its archived flag set to `archived`, stamped with `now`.
pub open spec fn with_archived(a: Action, archived: bool, now: Timestamp) -> Action {
    Action { archived, updated_at: now, ..a }
}

pub struct ActionMutation;

impl ActionMutation {
    /// The action to insert for `form` and the tag that stands for it, under two
    /// fresh version 7 ids.
    pub fn create_with_tag(form: NewAction) -> (r: (ActionInsert, TagInsert))
        ensures
            r.0 == new_action_insert(form, r.0.id),
            r.1 == action_tag_insert(form.user_id, r.0.id, r.1.id),
            uuid_version(r.0.id) == 7,
            uuid_version(r.1.id) == 7,
    {
        let action_id = now_v7_id();
        let user_id = form.user_id;
        let action = ActionInsert {
            id: action_id,
            user_id,
            name: form.name,
            description: form.description,
            track_type: Some(form.track_type),
        };
        let tag = TagInsert {
            id: now_v7_id(),
            user_id,
            name: None,
            ambition_id: None,
            objective_id: None,
            desired_state_id: None,
            action_id: Some(action_id),
            mindset_id: None,
            created_at: None,
        };
        (action, tag)
    }

    /// The found action after an edit of its name, description and, when given,
    /// `trackable` and `color`, stamped with the current time; `NotFound` when the
    /// lookup found none.
    pub fn update(
        found: Option<Action>,
        name: String,
        description: Option<String>,
        trackable: Option<bool>,
        color: Option<String>,
    ) -> (r: Result<Action, CustomDbErr>)
        ensures
            found is None ==> r == Err::<Action, CustomDbErr>(CustomDbErr::NotFound),
            found matches Some(a) ==> r matches Ok(b) && b == edited_action(
                a,
                name,
                description,
                trackable,
                color,
                b.updated_at,
            ) && is_clock_reading(b.updated_at),
    {
        match found {
            None => Err(CustomDbErr::NotFound),
            Some(a) => {
                let now = current_time();
                let trackable = match trackable {
                    Some(t) => t,
                    None => a.trackable,
                };
                let color = match color {
                    Some(c) => c,
                    None => a.color,
                };
                Ok(Action { name, description, trackable, color, updated_at: now, ..a })
            },
        }
    }

    /// `action` with track type `track_type`, stamped with the current time.
    pub fn convert_track_type(action: Action, track_type: ActionTrackType) -> (r: Action)
        ensures
            r == with_track_type(action, track_type, r.updated_at),
            is_clock_reading(r.updated_at),
    {
        let now = current_time();
        Action { track_type, updated_at: now, ..action }
    }

    /// The action to delete: the found one, or `NotFound`.
    pub fn delete(found: Option<Action>) -> (r: Result<Action, CustomDbErr>)
        ensures
            r == found_or_not_found(found),
    {
        match found {
            Some(a) => Ok(a),
            None => Err(CustomDbErr::NotFound),
        }
    }

    /// The found action, archived and stamped with the current time; `NotFound`
    /// when the lookup found none.
    pub fn archive(found: Option<Action>) -> (r: Result<Action, CustomDbErr>)
        ensures
            found is None ==> r == Err::<Action, CustomDbErr>(CustomDbErr::NotFound),
            found matches Some(a) ==> r matches Ok(b) && b == with_archived(a, true, b.updated_at)
                && is_clock_reading(b.updated_at),
    {
        match found {
            None => Err(CustomDbErr::NotFound),
            Some(a) => Ok(Action { archived: true, updated_at: current_time(), ..a }),
        }
    }

    /// The found action, no longer archived and stamped with the current time;
    /// `NotFound` when the lookup found none.
    pub fn unarchive(found: Option<Action>) -> (r: Result<Action, CustomDbErr>)
        ensures
            found is None ==> r == Err::<Action, CustomDbErr>(CustomDbErr::NotFound),
            found matches Some(a) ==> r matches Ok(b) && b == with_archived(a, false, b.updated_at)
                && is_clock_reading(b.updated_at),
    {
        match found {
            None => Err(CustomDbErr::NotFound),
            Some(a) => Ok(Action { archived: false, updated_at: current_time(), ..a }),
        }
    }

    /// The new order numbers of the user's actions with ids `found` (those that
    /// `ordering` lists): position in `ordering` plus one.
    pub fn bulk_update_ordering(found: &Vec<Id>, ordering: &Vec<Id>) -> (r: Vec<(Id, i32)>)
        ensures
            r@ == order_updates(found@, ordering@),
    {
        plan_order_updates(found, ordering)
    }
}

/// Unarchiving an archived action gives back the action as it was before it was
/// archived, but for its update time.
pub proof fn lemma_unarchive_undoes_archive(a: Action, archived_at: Timestamp, restored_at: Timestamp)
    requires
        !a.archived,
    ensures
        with_archived(with_archived(a, true, archived_at), false, restored_at) == (Action {
            updated_at: restored_at,
            ..a
        }),
{
}

/// An edit keeps an action's id, owner, creation time, archived flag, ordering
/// and track type.
pub proof fn lemma_edit_keeps_identity(
    a: Action,
    name: String,
    description: Option<String>,
    trackable: Option<bool>,
    color: Option<String>,
    now: Timestamp,
)
    ensures
        ({
            let b = edited_action(a, name, description, trackable, color, now);
            &&& b.id == a.id
            &&& b.user_id == a.user_id
            &&& b.created_at == a.created_at
            &&& b.archived == a.archived
            &&& b.ordering == a.ordering
            &&& b.track_type == a.track_type
        }),
{
}

/// An action created from a form has the form's owner, name, description and
/// track type, under the id it is given.
pub proof fn lemma_new_action_keeps_form(form: NewAction, id: Id)
    ensures
        ({
            let a = new_action_insert(form, id);
            &&& a.id == id
            &&& a.user_id == form.user_id
            &&& a.name == form.name
            &&& a.description == form.description
            &&& a.track_type == Some(form.track_type)
        }),
{
}

/// The tag of a new action belongs to its owner and stands for that action alone.
pub proof fn lemma_action_tag_stands_for_the_action(user_id: Id, item_id: Id, tag_id: Id)
    ensures
        ({
            let t = action_tag_insert(user_id, item_id, tag_id);
            &&& t.id == tag_id
            &&& t.user_id == user_id
            &&& t.name is None
            &&& t.ambition_id is None
            &&& t.objective_id is None
            &&& t.desired_state_id is None
            &&& t.action_id == Some(item_id)
            &&& t.mindset_id is None
            &&& t.created_at is None
        }),
{
}

/// An edit sets the given name and description, whatever they are (a missing
/// description clears it); trackable and color change only when given; the rest
/// stays but for the update time.
pub proof fn lemma_edit_sets_given_fields(a: Action, name: String, description: Option<String>, trackable: Option<bool>, color: Option<String>, now: Timestamp)
    ensures
        ({
            let b = edited_action(a, name, description, trackable, color, now);
            &&& b.name == name
            &&& b.description == description
            &&& (trackable matches Some(t) ==> b.trackable == t)
            &&& (trackable is None ==> b.trackable == a.trackable)
            &&& (color matches Some(c) ==> b.color == c)
            &&& (color is None ==> b.color == a.color)
            &&& b.updated_at == now
            &&& b.id == a.id
            &&& b.user_id == a.user_id
            &&& b.archived == a.archived
            &&& b.ordering == a.ordering
            &&& b.track_type == a.track_type
            &&& b.created_at == a.created_at
        }),
{
}

/// Archiving or unarchiving sets the archived flag to what is asked and changes
/// nothing else but the update time.
pub proof fn lemma_archiving_sets_only_the_flag(a: Action, archived: bool, now: Timestamp)
    ensures
        ({
            let b = with_archived(a, archived, now);
            &&& b.archived == archived
            &&& b.updated_at == now
            &&& b.id == a.id
            &&& b.user_id == a.user_id
            &&& b.name == a.name
            &&& b.description == a.description
            &&& b.ordering == a.ordering
            &&& b.trackable == a.trackable
            &&& b.color == a.color
            &&& b.track_type == a.track_type
            &&& b.created_at == a.created_at
        }),
{
}

/// Converting an action's track type sets the given type and changes nothing else
/// but the update time.
pub proof fn lemma_track_type_change_sets_only_the_type(a: Action, track_type: ActionTrackType, now: Timestamp)
    ensures
        ({
            let b = with_track_type(a, track_type, now);
            &&& b.track_type == track_type
            &&& b.updated_at == now
            &&& b.id == a.id
            &&& b.user_id == a.user_id
            &&& b.name == a.name
            &&& b.description == a.description
            &&& b.archived == a.archived
            &&& b.ordering == a.ordering
            &&& b.trackable == a.trackable
            &&& b.color == a.color
            &&& b.created_at == a.created_at
        }),
{
}

} // verus!
