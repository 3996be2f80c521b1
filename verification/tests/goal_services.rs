use lifetracker::entities::{Ambition, DesiredState, Mindset, Objective};
use lifetracker::error::CustomDbErr;
use lifetracker::ids::Id;
use lifetracker::services::ambition::{Mutation as LegacyAmbitionMutation, NewAmbition as LegacyNewAmbition};
use lifetracker::services::ambition_mutation::{AmbitionMutation, NewAmbition};
use lifetracker::services::ambition_query::AmbitionQuery;
use lifetracker::services::desired_state_mutation::{DesiredStateMutation, NewDesiredState};
use lifetracker::services::desired_state_query::DesiredStateQuery;
use lifetracker::services::mindset_mutation::{MindsetMutation, NewMindset};
use lifetracker::services::mindset_query::MindsetQuery;
use lifetracker::services::objective::{Mutation as LegacyObjectiveMutation, NewObjective as LegacyNewObjective, Query as LegacyObjectiveQuery};
use lifetracker::services::objective_mutation::{NewObjective, ObjectiveMutation};
use lifetracker::services::objective_query::ObjectiveQuery;
use lifetracker::time::Timestamp;

fn ts(secs: i64) -> Timestamp {
    Timestamp { secs, nanos: 0, offset: 0 }
}

fn version(id: Id) -> u128 {
    (id >> 76) & 0xf
}

fn ambition() -> Ambition {
    Ambition {
        id: 1,
        user_id: 2,
        name: "ambition".to_string(),
        description: None,
        archived: false,
        ordering: Some(3),
        created_at: ts(1_600_000_000),
        updated_at: ts(1_600_000_000),
    }
}

fn desired_state() -> DesiredState {
    DesiredState {
        id: 1,
        user_id: 2,
        name: "desired_state".to_string(),
        description: None,
        category_id: None,
        archived: false,
        ordering: None,
        created_at: ts(1_600_000_000),
        updated_at: ts(1_600_000_000),
    }
}

fn mindset() -> Mindset {
    Mindset {
        id: 1,
        user_id: 2,
        name: "mindset".to_string(),
        description: None,
        archived: false,
        ordering: None,
        created_at: ts(1_600_000_000),
        updated_at: ts(1_600_000_000),
    }
}

fn objective() -> Objective {
    Objective {
        id: 1,
        user_id: 2,
        name: "objective".to_string(),
        description: None,
        archived: false,
        created_at: ts(1_600_000_000),
        updated_at: ts(1_600_000_000),
    }
}

#[test]
fn ambition_mutation_create_with_tag() {
    let (a, tag) = AmbitionMutation::create_with_tag(NewAmbition {
        name: "Test ambition_service::Mutation::create_with_tag".to_string(),
        description: Some("Dummy description".to_string()),
        user_id: 9,
    });
    assert_eq!(a.name, "Test ambition_service::Mutation::create_with_tag");
    assert_eq!(a.description, Some("Dummy description".to_string()));
    assert_eq!(a.user_id, 9);
    assert!(!a.archived);
    assert_eq!(a.created_at, a.updated_at);
    assert_eq!(tag.ambition_id, Some(a.id));
    assert_eq!(tag.user_id, 9);
    assert_eq!(tag.created_at, Some(a.created_at));
    assert_eq!(tag.action_id, None);
    assert_eq!(version(a.id), 4);
    assert_eq!(version(tag.id), 4);
}

#[test]
fn ambition_mutation_update() {
    let before = ambition();
    let r = AmbitionMutation::update(Some(before.clone()), "ambition_after_update".to_string(), Some("Ambition after update.".to_string())).unwrap();
    assert_eq!(r.id, before.id);
    assert_eq!(r.name, "ambition_after_update");
    assert_eq!(r.description, Some("Ambition after update.".to_string()));
    assert_eq!(r.archived, before.archived);
    assert_eq!(r.ordering, before.ordering);
    assert_eq!(r.created_at, before.created_at);
    assert!(r.updated_at.secs > before.updated_at.secs);
}

#[test]
fn ambition_mutation_update_unauthorized() {
    assert_eq!(AmbitionMutation::update(None, "x".to_string(), None), Err(CustomDbErr::NotFound));
}

#[test]
fn ambition_mutation_delete() {
    assert_eq!(AmbitionMutation::delete(Some(ambition())), Ok(ambition()));
}

#[test]
fn ambition_mutation_delete_unauthorized() {
    assert_eq!(AmbitionMutation::delete(None), Err(CustomDbErr::NotFound));
}

#[test]
fn ambition_mutation_archive() {
    let r = AmbitionMutation::archive(Some(ambition())).unwrap();
    assert!(r.archived);
    assert_eq!(r.name, "ambition");
}

#[test]
fn ambition_mutation_archive_unauthorized() {
    assert_eq!(AmbitionMutation::archive(None), Err(CustomDbErr::NotFound));
}

#[test]
fn ambition_mutation_unarchive() {
    let mut a = ambition();
    a.archived = true;
    assert!(!AmbitionMutation::unarchive(Some(a)).unwrap().archived);
}

#[test]
fn ambition_mutation_unarchive_unauthorized() {
    assert_eq!(AmbitionMutation::unarchive(None), Err(CustomDbErr::NotFound));
}

#[test]
fn ambition_query_find_by_id_and_user_id() {
    assert_eq!(AmbitionQuery::find_by_id_and_user_id(Some(ambition())), Ok(ambition()));
    assert_eq!(AmbitionQuery::find_by_id_and_user_id(None), Err(CustomDbErr::NotFound));
}

#[test]
fn legacy_ambition_missing_is_no_error() {
    assert_eq!(LegacyAmbitionMutation::update(None, "x".to_string(), None), None);
    assert_eq!(LegacyAmbitionMutation::delete(None), None);
    let r = LegacyAmbitionMutation::update(Some(ambition()), "renamed".to_string(), None).unwrap();
    assert_eq!(r.name, "renamed");
    assert_eq!(r.id, 1);
    let (a, tag) = LegacyAmbitionMutation::create_with_tag(LegacyNewAmbition {
        name: "a".to_string(),
        description: None,
        user_id: 3,
    });
    assert_eq!(tag.ambition_id, Some(a.id));
    assert_eq!(a.user_id, 3);
}

#[test]
fn desired_state_mutation_create_with_tag() {
    let (d, tag) = DesiredStateMutation::create_with_tag(NewDesiredState {
        name: "desired_state".to_string(),
        description: Some("Dummy description".to_string()),
        category_id: Some(44),
        user_id: 9,
    });
    assert_eq!(d.name, "desired_state");
    assert_eq!(d.category_id, Some(44));
    assert_eq!(d.user_id, 9);
    assert_eq!(tag.desired_state_id, Some(d.id));
    assert_eq!(tag.ambition_id, None);
    assert_eq!(version(d.id), 7);
}

#[test]
fn desired_state_mutation_update() {
    let before = desired_state();
    let r = DesiredStateMutation::update(Some(before.clone()), "after".to_string(), Some("d".to_string()), Some(5)).unwrap();
    assert_eq!(r.name, "after");
    assert_eq!(r.description, Some("d".to_string()));
    assert_eq!(r.category_id, Some(5));
    assert_eq!(r.created_at, before.created_at);
    assert!(r.updated_at.secs > before.updated_at.secs);
}

#[test]
fn desired_state_mutation_update_unauthorized() {
    assert_eq!(DesiredStateMutation::update(None, "x".to_string(), None, None), Err(CustomDbErr::NotFound));
}

#[test]
fn desired_state_mutation_delete() {
    assert_eq!(DesiredStateMutation::delete(Some(desired_state())), Ok(desired_state()));
}

#[test]
fn desired_state_mutation_delete_unauthorized() {
    assert_eq!(DesiredStateMutation::delete(None), Err(CustomDbErr::NotFound));
}

#[test]
fn desired_state_mutation_archive() {
    assert!(DesiredStateMutation::archive(Some(desired_state())).unwrap().archived);
}

#[test]
fn desired_state_mutation_archive_unauthorized() {
    assert_eq!(DesiredStateMutation::archive(None), Err(CustomDbErr::NotFound));
}

#[test]
fn desired_state_mutation_unarchive() {
    let mut d = desired_state();
    d.archived = true;
    assert!(!DesiredStateMutation::unarchive(Some(d)).unwrap().archived);
}

#[test]
fn desired_state_mutation_unarchive_unauthorized() {
    assert_eq!(DesiredStateMutation::unarchive(None), Err(CustomDbErr::NotFound));
}

#[test]
fn desired_state_query_lookup() {
    assert_eq!(DesiredStateQuery::find_by_id_and_user_id(None), Err(CustomDbErr::NotFound));
}

#[test]
fn mindset_mutation_create_with_tag() {
    let (m, tag) = MindsetMutation::create_with_tag(NewMindset {
        name: "mindset".to_string(),
        description: None,
        user_id: 9,
    });
    assert_eq!(m.name, "mindset");
    assert_eq!(tag.mindset_id, Some(m.id));
    assert_eq!(tag.user_id, 9);
    assert_eq!(version(m.id), 7);
    assert_eq!(version(tag.id), 7);
}

#[test]
fn mindset_mutation_update() {
    let r = MindsetMutation::update(Some(mindset()), "after".to_string(), Some("d".to_string())).unwrap();
    assert_eq!(r.name, "after");
    assert_eq!(r.description, Some("d".to_string()));
    assert_eq!(r.id, 1);
}

#[test]
fn mindset_mutation_update_unauthorized() {
    assert_eq!(MindsetMutation::update(None, "x".to_string(), None), Err(CustomDbErr::NotFound));
}

#[test]
fn mindset_mutation_delete() {
    assert_eq!(MindsetMutation::delete(Some(mindset())), Ok(mindset()));
}

#[test]
fn mindset_mutation_delete_unauthorized() {
    assert_eq!(MindsetMutation::delete(None), Err(CustomDbErr::NotFound));
}

#[test]
fn mindset_mutation_archive() {
    assert!(MindsetMutation::archive(Some(mindset())).unwrap().archived);
}

#[test]
fn mindset_mutation_archive_unauthorized() {
    assert_eq!(MindsetMutation::archive(None), Err(CustomDbErr::NotFound));
}

#[test]
fn mindset_mutation_unarchive() {
    let mut m = mindset();
    m.archived = true;
    assert!(!MindsetMutation::unarchive(Some(m)).unwrap().archived);
}

#[test]
fn mindset_mutation_unarchive_unauthorized() {
    assert_eq!(MindsetMutation::unarchive(None), Err(CustomDbErr::NotFound));
}

#[test]
fn mindset_query_lookup() {
    assert_eq!(MindsetQuery::find_by_id_and_user_id(Some(mindset())), Ok(mindset()));
}

#[test]
fn objective_mutation_create_with_tag() {
    let (o, tag) = ObjectiveMutation::create_with_tag(NewObjective {
        name: "objective".to_string(),
        description: Some("Dummy description".to_string()),
        user_id: 9,
    });
    assert_eq!(o.name, "objective");
    assert_eq!(o.description, Some("Dummy description".to_string()));
    assert_eq!(o.created_at, o.updated_at);
    assert_eq!(tag.objective_id, Some(o.id));
    assert_eq!(tag.created_at, Some(o.created_at));
    assert_eq!(version(o.id), 4);
}

#[test]
fn objective_mutation_update() {
    let r = ObjectiveMutation::update(Some(objective()), "after".to_string(), Some("d".to_string())).unwrap();
    assert_eq!(r.name, "after");
    assert_eq!(r.description, Some("d".to_string()));
    assert_eq!(r.created_at, objective().created_at);
}

#[test]
fn objective_mutation_update_unauthorized() {
    assert_eq!(ObjectiveMutation::update(None, "x".to_string(), None), Err(CustomDbErr::NotFound));
}

#[test]
fn objective_mutation_delete() {
    assert_eq!(ObjectiveMutation::delete(Some(objective())), Ok(objective()));
}

#[test]
fn objective_mutation_delete_unauthorized() {
    assert_eq!(ObjectiveMutation::delete(None), Err(CustomDbErr::NotFound));
}

#[test]
fn objective_query_lookup() {
    assert_eq!(ObjectiveQuery::find_by_id_and_user_id(None), Err(CustomDbErr::NotFound));
}

#[test]
fn objective_create_with_tag() {
    let (o, tag) = LegacyObjectiveMutation::create_with_tag(LegacyNewObjective {
        name: "Test objective_service::Mutation::create_with_tag".to_string(),
        user_id: 3,
    });
    assert_eq!(o.name, "Test objective_service::Mutation::create_with_tag");
    assert_eq!(o.user_id, 3);
    assert_eq!(tag.objective_id, Some(o.id));
    assert_eq!(tag.ambition_id, None);
    assert_eq!(tag.action_id, None);
    assert!(tag.created_at.is_some());
}

#[test]
fn objective_update() {
    let r = LegacyObjectiveMutation::update(Some(objective()), "objective_after_update".to_string()).unwrap();
    assert_eq!(r.name, "objective_after_update");
    assert_eq!(r.description, None);
    assert!(r.updated_at.secs > objective().updated_at.secs);
}

#[test]
fn objective_update_unauthorized() {
    assert_eq!(LegacyObjectiveMutation::update(None, "x".to_string()), Err(CustomDbErr::NotFound));
}

#[test]
fn objective_delete() {
    assert_eq!(LegacyObjectiveMutation::delete(Some(objective())), Ok(objective()));
}

#[test]
fn objective_delete_unauthorized() {
    assert_eq!(LegacyObjectiveMutation::delete(None), Err(CustomDbErr::NotFound));
    assert_eq!(LegacyObjectiveQuery::find_by_id_and_user_id(None), Err(CustomDbErr::NotFound));
}
