use lifetracker::entities::{Action, ActionTrackType};
use lifetracker::error::CustomDbErr;
use lifetracker::ids::Id;
use lifetracker::services::action::{Mutation as LegacyMutation, NewAction as LegacyNewAction, Query as LegacyQuery};
use lifetracker::services::action_mutation::{ActionMutation, NewAction};
use lifetracker::services::action_query::ActionQuery;
use lifetracker::time::Timestamp;

fn ts(secs: i64) -> Timestamp {
    Timestamp { secs, nanos: 0, offset: 0 }
}

fn action(id: Id, user_id: Id) -> Action {
    Action {
        id,
        user_id,
        name: "action_before_update".to_string(),
        description: None,
        archived: false,
        ordering: None,
        trackable: true,
        color: "#212121".to_string(),
        track_type: ActionTrackType::TimeSpan,
        created_at: ts(1_700_000_000),
        updated_at: ts(1_700_000_000),
    }
}

fn version(id: Id) -> u128 {
    (id >> 76) & 0xf
}

#[test]
fn action_mutation_create_with_tag() {
    let form = NewAction {
        name: "create_with_tag".to_string(),
        description: Some("Create with Tag.".to_string()),
        track_type: ActionTrackType::Count,
        user_id: 7,
    };
    let (a, tag) = ActionMutation::create_with_tag(form);
    assert_eq!(a.name, "create_with_tag");
    assert_eq!(a.description, Some("Create with Tag.".to_string()));
    assert_eq!(a.track_type, Some(ActionTrackType::Count));
    assert_eq!(a.user_id, 7);
    assert_eq!(tag.user_id, 7);
    assert_eq!(tag.action_id, Some(a.id));
    assert_eq!(tag.ambition_id, None);
    assert_eq!(tag.desired_state_id, None);
    assert_eq!(version(a.id), 7);
    assert_eq!(version(tag.id), 7);
    assert_ne!(a.id, tag.id);
}

#[test]
fn action_mutation_update() {
    let before = action(1, 2);
    let r = ActionMutation::update(
        Some(before.clone()),
        "action_after_update".to_string(),
        Some("Action after update.".to_string()),
        Some(false),
        Some("#ffffff".to_string()),
    )
    .unwrap();
    assert_eq!(r.id, before.id);
    assert_eq!(r.name, "action_after_update");
    assert_eq!(r.description, Some("Action after update.".to_string()));
    assert_eq!(r.archived, before.archived);
    assert_eq!(r.trackable, false);
    assert_eq!(r.color, "#ffffff");
    assert_eq!(r.user_id, 2);
    assert_eq!(r.created_at, before.created_at);
    assert!(r.updated_at.secs > before.updated_at.secs);
    assert_eq!(r.updated_at.offset, 0);
}

#[test]
fn action_update_keeps_trackable_and_color_when_not_given() {
    let before = action(1, 2);
    let r = ActionMutation::update(Some(before.clone()), "n".to_string(), None, None, None).unwrap();
    assert_eq!(r.trackable, before.trackable);
    assert_eq!(r.color, before.color);
    assert_eq!(r.description, None);
}

#[test]
fn action_mutation_update_unauthorized() {
    let r = ActionMutation::update(None, "x".to_string(), None, None, None);
    assert_eq!(r, Err(CustomDbErr::NotFound));
}

#[test]
fn action_mutation_delete() {
    assert_eq!(ActionMutation::delete(Some(action(3, 4))), Ok(action(3, 4)));
}

#[test]
fn action_mutation_delete_unauthorized() {
    assert_eq!(ActionMutation::delete(None), Err(CustomDbErr::NotFound));
}

#[test]
fn action_mutation_archive() {
    let r = ActionMutation::archive(Some(action(1, 2))).unwrap();
    assert!(r.archived);
    assert_eq!(r.name, "action_before_update");
}

#[test]
fn action_mutation_archive_unauthorized() {
    assert_eq!(ActionMutation::archive(None), Err(CustomDbErr::NotFound));
}

#[test]
fn action_mutation_unarchive() {
    let mut a = action(1, 2);
    a.archived = true;
    let r = ActionMutation::unarchive(Some(a)).unwrap();
    assert!(!r.archived);
}

#[test]
fn action_mutation_unarchive_unauthorized() {
    assert_eq!(ActionMutation::unarchive(None), Err(CustomDbErr::NotFound));
}

#[test]
fn action_convert_track_type() {
    let r = ActionMutation::convert_track_type(action(1, 2), ActionTrackType::Count);
    assert_eq!(r.track_type, ActionTrackType::Count);
    assert_eq!(r.id, 1);
    assert!(r.updated_at.secs >= 1_700_000_000);
}

#[test]
fn action_query_find_by_id_and_user_id() {
    assert_eq!(ActionQuery::find_by_id_and_user_id(Some(action(1, 2))), Ok(action(1, 2)));
    assert_eq!(ActionQuery::find_by_id_and_user_id(None), Err(CustomDbErr::NotFound));
}

#[test]
fn action_create_with_tag() {
    let (a, tag) = LegacyMutation::create_with_tag(LegacyNewAction {
        name: "Test action_service::Mutation::create_with_tag".to_string(),
        user_id: 5,
    });
    assert_eq!(a.name, "Test action_service::Mutation::create_with_tag");
    assert_eq!(a.user_id, 5);
    assert_eq!(a.description, None);
    assert_eq!(a.track_type, None);
    assert_eq!(tag.action_id, Some(a.id));
    assert_eq!(tag.ambition_id, None);
    assert_eq!(tag.objective_id, None);
    assert_eq!(version(a.id), 4);
    assert_eq!(version(tag.id), 4);
}

#[test]
fn action_update() {
    let before = action(1, 2);
    let r = LegacyMutation::update(Some(before.clone()), "action_after_update".to_string()).unwrap();
    assert_eq!(r.id, before.id);
    assert_eq!(r.name, "action_after_update");
    assert_eq!(r.user_id, before.user_id);
    assert_eq!(r.created_at, before.created_at);
    assert!(r.updated_at.secs > before.updated_at.secs);
    assert_eq!(LegacyMutation::update(None, "x".to_string()), Err(CustomDbErr::NotFound));
}

#[test]
fn action_delete() {
    assert_eq!(LegacyMutation::delete(Some(action(1, 2))), Ok(action(1, 2)));
    assert_eq!(LegacyMutation::delete(None), Err(CustomDbErr::NotFound));
    assert_eq!(LegacyQuery::find_by_id_and_user_id(None), Err(CustomDbErr::NotFound));
}
