use lifetracker::entities::{ActionTrack, DesiredStateCategory, Tag, TagType, TimezoneEnum, User};
use lifetracker::error::CustomDbErr;
use lifetracker::services::action_track_mutation::{ActionTrackMutation, NewActionTrack, UpdateActionTrack};
use lifetracker::services::action_track_query::ActionTrackQuery;
use lifetracker::services::desired_state_category_mutation::DesiredStateCategoryMutation;
use lifetracker::services::tag_mutation::{NewTag, TagMutation, UpdateTag};
use lifetracker::services::user::{Mutation as UserMutation, NewUser};
use lifetracker::settings::{environment_settings_file, Environment};
use lifetracker::time::Timestamp;

fn at(secs: i64, nanos: u32) -> Timestamp {
    Timestamp { secs, nanos, offset: 32_400 }
}

fn track() -> ActionTrack {
    ActionTrack {
        id: 1,
        user_id: 2,
        action_id: 3,
        started_at: at(1_700_000_000, 0),
        ended_at: None,
        duration: None,
    }
}

fn user() -> User {
    User {
        id: 1,
        email: "lynx@test.com".to_string(),
        password: "password".to_string(),
        first_name: "Lynx".to_string(),
        last_name: "Levin".to_string(),
        is_active: false,
        timezone: TimezoneEnum::AsiaTokyo,
        created_at: at(1_600_000_000, 0),
        updated_at: at(1_600_000_000, 0),
    }
}

#[test]
fn action_track_mutation_create() {
    let started = at(1_700_000_000, 123_456_789);
    let t = ActionTrackMutation::create(NewActionTrack {
        started_at: started,
        ended_at: None,
        action_id: 3,
        user_id: 2,
    });
    assert_eq!(t.user_id, 2);
    assert_eq!(t.action_id, 3);
    assert_eq!(t.started_at, at(1_700_000_000, 0));
    assert_eq!(t.ended_at, None);
    assert_eq!(t.duration, None);
    assert_eq!((t.id >> 76) & 0xf, 7);
}

#[test]
fn action_track_create_with_end_counts_whole_seconds() {
    let t = ActionTrackMutation::create(NewActionTrack {
        started_at: at(1_700_000_000, 900_000_000),
        ended_at: Some(at(1_700_000_180, 100_000_000)),
        action_id: 3,
        user_id: 2,
    });
    assert_eq!(t.started_at, at(1_700_000_000, 0));
    assert_eq!(t.ended_at, Some(at(1_700_000_180, 0)));
    assert_eq!(t.duration, Some(180));
}

#[test]
fn action_track_mutation_update() {
    let ended = at(1_700_000_500, 250_000_000);
    let started = at(1_700_000_320, 250_000_000);
    let t = ActionTrackMutation::update(
        Some(track()),
        UpdateActionTrack { started_at: started, ended_at: Some(ended), action_id: 9, user_id: 2 },
    )
    .unwrap();
    assert_eq!(t.id, 1);
    assert_eq!(t.action_id, 9);
    assert_eq!(t.user_id, 2);
    assert_eq!(t.started_at, at(1_700_000_320, 0));
    assert_eq!(t.ended_at, Some(at(1_700_000_500, 0)));
    assert_eq!(t.duration, Some(180));
}

#[test]
fn action_track_update_counts_uncut_span() {
    // The update counts between the ends as given: 0.9 s to 2.1 s is 1 s, while
    // the cut ends are 2 s apart.
    let t = ActionTrackMutation::update(
        Some(track()),
        UpdateActionTrack {
            started_at: at(1_700_000_000, 900_000_000),
            ended_at: Some(at(1_700_000_002, 100_000_000)),
            action_id: 3,
            user_id: 2,
        },
    )
    .unwrap();
    assert_eq!(t.duration, Some(1));
    assert_eq!(t.ended_at, Some(at(1_700_000_002, 0)));
}

#[test]
fn action_track_update_negative_span_rounds_toward_zero() {
    let t = ActionTrackMutation::update(
        Some(track()),
        UpdateActionTrack {
            started_at: at(1_700_000_002, 100_000_000),
            ended_at: Some(at(1_700_000_000, 900_000_000)),
            action_id: 3,
            user_id: 2,
        },
    )
    .unwrap();
    assert_eq!(t.duration, Some(-1));
}

#[test]
fn action_track_update_without_end_clears_it() {
    let mut before = track();
    before.ended_at = Some(at(1_700_000_060, 0));
    before.duration = Some(60);
    let t = ActionTrackMutation::update(
        Some(before),
        UpdateActionTrack { started_at: at(1_700_000_000, 0), ended_at: None, action_id: 3, user_id: 2 },
    )
    .unwrap();
    assert_eq!(t.ended_at, None);
    assert_eq!(t.duration, None);
}

#[test]
fn action_track_mutation_update_unauthorized() {
    let r = ActionTrackMutation::update(
        None,
        UpdateActionTrack { started_at: at(1_700_000_000, 0), ended_at: None, action_id: 3, user_id: 2 },
    );
    assert_eq!(r, Err(CustomDbErr::NotFound));
}

#[test]
fn create_duplicate_creation() {
    assert_eq!(ActionTrackMutation::written(None), Err(CustomDbErr::Duplicate));
    assert_eq!(ActionTrackMutation::written(Some(track())), Ok(track()));
}

#[test]
fn action_track_mutation_delete() {
    assert_eq!(ActionTrackMutation::delete(Some(track())), Ok(track()));
}

#[test]
fn action_track_mutation_delete_unauthorized() {
    assert_eq!(ActionTrackMutation::delete(None), Err(CustomDbErr::NotFound));
    assert_eq!(ActionTrackQuery::find_by_id_and_user_id(None), Err(CustomDbErr::NotFound));
}

#[test]
fn action_track_default_filters() {
    let f = ActionTrackQuery::get_default_filters();
    assert_eq!(f.started_at_gte, None);
    assert_eq!(f.started_at_lte, None);
    assert!(f.show_active);
    assert!(f.show_inactive);
    assert!(!f.for_daily_aggregation);
}

#[test]
fn create_plain_tag() {
    let t = TagMutation::create_plain_tag(NewTag { name: "New Tag".to_string(), user_id: 2 });
    assert_eq!(t.name, Some("New Tag".to_string()));
    assert_eq!(t.user_id, 2);
    assert_eq!(t.ambition_id, None);
    assert_eq!(t.desired_state_id, None);
    assert_eq!(t.action_id, None);
    assert_eq!(t.created_at, None);
}

#[test]
fn tag_mutation_update() {
    let tag = Tag {
        id: 1,
        user_id: 2,
        name: Some("plain_tag".to_string()),
        ambition_id: None,
        objective_id: None,
        desired_state_id: None,
        action_id: None,
        mindset_id: None,
        created_at: at(1_600_000_000, 0),
    };
    let updated = TagMutation::update(tag, UpdateTag { name: "updated_name".to_string() });
    assert_eq!(updated.name, Some("updated_name".to_string()));
    let visible = TagMutation::plain_tag_visible(updated);
    assert_eq!(visible.id, 1);
    assert_eq!(visible.name, "updated_name");
    assert_eq!(visible.tag_type, TagType::Plain);
    assert_eq!(visible.created_at, at(1_600_000_000, 0));
}

#[test]
fn create_user() {
    let u = UserMutation::create_user(NewUser {
        email: "test@test.com".to_string(),
        password: "password".to_string(),
        first_name: "Lynx".to_string(),
        last_name: "Levin".to_string(),
        is_active: false,
    });
    assert_eq!(u.email, "test@test.com");
    assert_eq!(u.first_name, "Lynx");
    assert!(!u.is_active);
    assert_eq!(u.timezone, TimezoneEnum::AsiaTokyo);
    assert_eq!(u.created_at, u.updated_at);
}

#[test]
fn activate_user_by_id() {
    let u = UserMutation::activate_user_by_id(user());
    assert!(u.is_active);
    assert_eq!(u.email, user().email);
    assert!(u.updated_at.secs > user().updated_at.secs);
}

#[test]
fn update_user_password() {
    let u = UserMutation::update_user_password(user(), "new_password".to_string());
    assert_eq!(u.password, "new_password");
    assert_eq!(u.is_active, user().is_active);
}

#[test]
fn desired_state_category_changes() {
    let c = DesiredStateCategoryMutation::create(4, "category".to_string());
    assert_eq!(c.user_id, 4);
    assert_eq!(c.name, "category");
    let cat = DesiredStateCategory { id: 1, user_id: 4, name: "a".to_string(), ordering: None };
    let renamed = DesiredStateCategoryMutation::update(cat.clone(), "b".to_string());
    assert_eq!(renamed.name, "b");
    assert_eq!(renamed.ordering, None);
    let other = DesiredStateCategory { id: 2, user_id: 4, name: "c".to_string(), ordering: Some(1) };
    let r = DesiredStateCategoryMutation::bulk_update_ordering(vec![(cat, Some(2)), (other, None)]);
    assert_eq!(r.len(), 2);
    assert_eq!((r[0].id, r[0].ordering), (1, Some(2)));
    assert_eq!((r[1].id, r[1].ordering), (2, None));
}

#[test]
fn environment_names() {
    assert_eq!(Environment::Development.as_str(), "development");
    assert_eq!(Environment::Production.as_str(), "production");
    assert_eq!(Environment::try_from("development".to_string()), Ok(Environment::Development));
    assert_eq!(Environment::try_from("PRODUCTION".to_string()), Ok(Environment::Production));
    assert_eq!(Environment::try_from(Environment::Development.as_str().to_string()), Ok(Environment::Development));
}

#[test]
fn environment_unsupported_name() {
    assert_eq!(
        Environment::try_from("Staging".to_string()),
        Err("staging is not a supported environment. Use either 'development' or 'production'.".to_string())
    );
}

#[test]
fn environment_settings_file_names() {
    assert_eq!(environment_settings_file(None), Ok("development.yaml".to_string()));
    assert_eq!(environment_settings_file(Some("Production".to_string())), Ok("production.yaml".to_string()));
    assert_eq!(
        environment_settings_file(Some("qa".to_string())),
        Err("qa is not a supported environment. Use either 'development' or 'production'.".to_string())
    );
}

#[test]
fn environment_names_in_mixed_and_upper_case() {
    assert_eq!(Environment::try_from("Production".to_string()), Ok(Environment::Production));
    assert_eq!(Environment::try_from("DEVELOPMENT".to_string()), Ok(Environment::Development));
    assert_eq!(
        Environment::try_from("STAGING".to_string()),
        Err("staging is not a supported environment. Use either 'development' or 'production'.".to_string())
    );
}

#[test]
fn action_track_create_from_leap_second() {
    // 1_700_000_039 is the last second of a minute; 1.5 s into it is a leap
    // second. Cut to the whole second, the start stays the leap second, which
    // counts as one second before the second after it.
    let t = ActionTrackMutation::create(NewActionTrack {
        started_at: at(1_700_000_039, 1_500_000_000),
        ended_at: Some(at(1_700_000_041, 300)),
        action_id: 3,
        user_id: 2,
    });
    assert_eq!(t.started_at, at(1_700_000_039, 1_000_000_000));
    assert_eq!(t.ended_at, Some(at(1_700_000_041, 0)));
    assert_eq!(t.duration, Some(2));
}

#[test]
fn action_track_update_ending_in_leap_second() {
    // From 1_700_000_040.0 back to the leap second before it, 1.2 s in: chrono
    // counts -0.8 s, which rounds toward zero to 0.
    let t = ActionTrackMutation::update(
        Some(track()),
        UpdateActionTrack {
            started_at: at(1_700_000_040, 0),
            ended_at: Some(at(1_700_000_039, 1_200_000_000)),
            action_id: 3,
            user_id: 2,
        },
    )
    .unwrap();
    assert_eq!(t.started_at, at(1_700_000_040, 0));
    assert_eq!(t.ended_at, Some(at(1_700_000_039, 1_000_000_000)));
    assert_eq!(t.duration, Some(0));
}
