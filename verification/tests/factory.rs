use lifetracker::entities::{ActionTrackType, TimezoneEnum};
use lifetracker::test_utils::factory::action::{action, ActionFactory};
use lifetracker::test_utils::factory::action_track::{action_track, ActionTrackFactory};
use lifetracker::test_utils::factory::ambition::{ambition, AmbitionFactory};
use lifetracker::test_utils::factory::book_excerpt::{book_excerpt, BookExcerptFactory};
use lifetracker::test_utils::factory::challenge::{challenge, ChallengeFactory};
use lifetracker::test_utils::factory::desired_state::{desired_state, DesiredStateFactory};
use lifetracker::test_utils::factory::diary::{diary, DiaryFactory};
use lifetracker::test_utils::factory::memo::{memo, MemoFactory};
use lifetracker::test_utils::factory::mindset::{mindset, MindsetFactory};
use lifetracker::test_utils::factory::mission_memo::{mission_memo, MissionMemoFactory};
use lifetracker::test_utils::factory::objective::objective;
use lifetracker::test_utils::factory::tag::{tag, TagFactory};
use lifetracker::test_utils::factory::user::{user, UserFactory};
use lifetracker::test_utils::factory::Field;
use lifetracker::time::Timestamp;

#[test]
fn user_factory_defaults_and_is_active() {
    let u = user();
    assert!(u.email.ends_with("@test.com"));
    assert_eq!(u.email.len(), 45);
    assert_eq!(u.password, "password");
    assert_eq!(u.first_name, "Lynx");
    assert_eq!(u.last_name, "Levin");
    assert_eq!(u.timezone, TimezoneEnum::AsiaTokyo);
    assert!(u.is_active);
    assert!(!u.is_active(false).is_active);
}

#[test]
fn tag_factory_defaults_and_name() {
    let t = tag(5);
    assert_eq!(t.user_id, 5);
    assert_eq!(t.name, Some("plain_tag".to_string()));
    assert_eq!(t.clone().name(None).name, None);
    assert_eq!(t.name(Some("x".to_string())).name, Some("x".to_string()));
}

#[test]
fn book_excerpt_factory_defaults_and_title() {
    let b = book_excerpt(5);
    assert_eq!(b.title, "book_excerpt");
    assert_eq!(b.page_number, 1);
    assert_eq!(b.text, "book content");
    assert_eq!(b.date as i64, b.created_at.secs.div_euclid(86_400) + 719_163);
    assert_eq!(b.title("t".to_string()).title, "t");
}

#[test]
fn action_factory_defaults_and_builders() {
    let a = action(5);
    assert_eq!(a.name, "action");
    assert_eq!(a.color, "#212121");
    assert!(a.trackable);
    assert_eq!(a.track_type, ActionTrackType::TimeSpan);
    assert_eq!(a.ordering, None);
    let b = a.name("n".to_string()).description(Some("d".to_string())).archived(true).ordering(Some(2)).track_type(ActionTrackType::Count);
    assert_eq!(b.name, "n");
    assert_eq!(b.description, Some("d".to_string()));
    assert!(b.archived);
    assert_eq!(b.ordering, Some(2));
    assert_eq!(b.track_type, ActionTrackType::Count);
}

#[test]
fn goal_factories() {
    let a = ambition(5).name("x".to_string()).description(None).archived(true);
    assert_eq!(a.name, "x");
    assert!(a.archived);
    let d = desired_state(5).ordering(Some(1)).archived(false);
    assert_eq!(d.name, "desired_state");
    assert_eq!(d.ordering, Some(1));
    assert_eq!(d.category_id, None);
    let m = mindset(5).ordering(Some(3));
    assert_eq!(m.name, "mindset");
    assert_eq!(m.ordering, Some(3));
    let o = objective(5).name("o".to_string()).archived(true);
    assert_eq!(o.name, "o");
    assert!(o.archived);
}

#[test]
fn note_factories() {
    let c = challenge(5).title("c".to_string()).archived(true).accomplished_at(None);
    assert_eq!(c.title, "c");
    assert!(c.archived);
    assert_eq!(c.text, "text");
    let mm = mission_memo(5);
    assert_eq!(mm.title, "mission_memo");
    assert_eq!(mm.archived(true).accomplished_at, None);
    let me = memo(5).favorite(true).date(700_000);
    assert!(me.favorite);
    assert_eq!(me.date, 700_000);
    let di = diary(5);
    assert_eq!(di.text, Some("diary".to_string()));
    assert_eq!(di.score, Some(4));
    assert_eq!(di.text(None).text, None);
}

#[test]
fn action_track_factory_moves_end_with_start() {
    let t = action_track(5);
    assert_eq!(t.started_at.nanos, 0);
    assert_eq!(t.ended_at, Field::NotSet);
    let start = t.started_at;
    let t = t.action_id(Some(9)).duration(Some(120));
    assert_eq!(t.action_id, Field::Value(Some(9)));
    assert_eq!(t.duration, Field::Value(Some(120)));
    assert_eq!(t.ended_at, Field::Value(Some(Timestamp { secs: start.secs + 120, ..start })));
    let new_start = Timestamp { secs: 1_000_000, nanos: 0, offset: 0 };
    let t = t.started_at(new_start);
    assert_eq!(t.started_at, new_start);
    assert_eq!(t.ended_at, Field::Value(Some(Timestamp { secs: 1_000_120, nanos: 0, offset: 0 })));
}

#[test]
fn action_track_factory_without_duration_keeps_end() {
    let t = action_track(5);
    let s = Timestamp { secs: 42, nanos: 0, offset: 0 };
    let t = t.started_at(s);
    assert_eq!(t.started_at, s);
    assert_eq!(t.ended_at, Field::NotSet);
    let t = t.duration(None);
    assert_eq!(t.ended_at, Field::Value(None));
    let t = t.started_at(Timestamp { secs: 50, nanos: 0, offset: 0 });
    assert_eq!(t.ended_at, Field::Value(None));
}

#[test]
fn action_track_factory_leaves_a_leap_second() {
    let leap = Timestamp { secs: 59, nanos: 1_500_000_000, offset: 0 };
    let t = action_track(5).duration(Some(10)).started_at(leap);
    assert_eq!(t.ended_at, Field::Value(Some(Timestamp { secs: 69, nanos: 500_000_000, offset: 0 })));
    let t = action_track(5).duration(Some(-10)).started_at(leap);
    assert_eq!(t.ended_at, Field::Value(Some(Timestamp { secs: 50, nanos: 500_000_000, offset: 0 })));
}
