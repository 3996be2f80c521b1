//! The stored records that the services read and write, with every field as a
//! plain value: identifiers as `Id`, calendar dates as days since the Common Era
//! (`chrono::NaiveDate::num_days_from_ce`), date-times as `Timestamp`.
use crate::ids::Id;
use crate::time::Timestamp;
use vstd::prelude::*;

verus! {

/// A calendar date, as days since January 1st of year 1 (that day is 1).
pub type Date = i32;

/// How an action is tracked.
#[derive(Clone, Copy, Debug, PartialEq, Eq, Structural)]
pub enum ActionTrackType {
    TimeSpan,
    Count,
}

/// A user's time zone.
#[derive(Clone, Copy, Debug, PartialEq, Eq, Structural)]
pub enum TimezoneEnum {
    AsiaTokyo,
}

#[derive(Clone, Debug, PartialEq, Eq)]
pub struct User {
    pub id: Id,
    pub email: String,
    pub password: String,
    pub first_name: String,
    pub last_name: String,
    pub is_active: bool,
    pub timezone: TimezoneEnum,
    pub created_at: Timestamp,
    pub updated_at: Timestamp,
}

#[derive(Clone, Debug, PartialEq, Eq)]
pub struct Action {
    pub id: Id,
    pub user_id: Id,
    pub name: String,
    pub description: Option<String>,
    pub archived: bool,
    pub ordering: Option<i32>,
    pub trackable: bool,
    pub color: String,
    pub track_type: ActionTrackType,
    pub created_at: Timestamp,
    pub updated_at: Timestamp,
}

#[derive(Clone, Debug, PartialEq, Eq)]
pub struct ActionTrack {
    pub id: Id,
    pub user_id: Id,
    pub action_id: Id,
    pub started_at: Timestamp,
    pub ended_at: Option<Timestamp>,
    /// Seconds from `started_at` to `ended_at`.
    pub duration: Option<i64>,
}

#[derive(Clone, Debug, PartialEq, Eq)]
pub struct Ambition {
    pub id: Id,
    pub user_id: Id,
    pub name: String,
    pub description: Option<String>,
    pub archived: bool,
    pub ordering: Option<i32>,
    pub created_at: Timestamp,
    pub updated_at: Timestamp,
}

#[derive(Clone, Debug, PartialEq, Eq)]
pub struct DesiredState {
    pub id: Id,
    pub user_id: Id,
    pub name: String,
    pub description: Option<String>,
    pub category_id: Option<Id>,
    pub archived: bool,
    pub ordering: Option<i32>,
    pub created_at: Timestamp,
    pub updated_at: Timestamp,
}

#[derive(Clone, Debug, PartialEq, Eq)]
pub struct DesiredStateCategory {
    pub id: Id,
    pub user_id: Id,
    pub name: String,
    pub ordering: Option<i32>,
}

#[derive(Clone, Debug, PartialEq, Eq)]
pub struct Mindset {
    pub id: Id,
    pub user_id: Id,
    pub name: String,
    pub description: Option<String>,
    pub archived: bool,
    pub ordering: Option<i32>,
    pub created_at: Timestamp,
    pub updated_at: Timestamp,
}

#[derive(Clone, Debug, PartialEq, Eq)]
pub struct Objective {
    pub id: Id,
    pub user_id: Id,
    pub name: String,
    pub description: Option<String>,
    pub archived: bool,
    pub created_at: Timestamp,
    pub updated_at: Timestamp,
}

/// A tag: either plain (it has a name) or standing for one ambition, objective,
/// desired state, action or mindset.
#[derive(Clone, Debug, PartialEq, Eq)]
pub struct Tag {
    pub id: Id,
    pub user_id: Id,
    pub name: Option<String>,
    pub ambition_id: Option<Id>,
    pub objective_id: Option<Id>,
    pub desired_state_id: Option<Id>,
    pub action_id: Option<Id>,
    pub mindset_id: Option<Id>,
    pub created_at: Timestamp,
}

/// The fields that creating a tag sets; a field left `None` here is filled by
/// the store (links and name default to none, `created_at` to the time of
/// insertion).
#[derive(Clone, Debug, PartialEq, Eq)]
pub struct TagInsert {
    pub id: Id,
    pub user_id: Id,
    pub name: Option<String>,
    pub ambition_id: Option<Id>,
    pub objective_id: Option<Id>,
    pub desired_state_id: Option<Id>,
    pub action_id: Option<Id>,
    pub mindset_id: Option<Id>,
    pub created_at: Option<Timestamp>,
}

/// What a tag stands for, as shown to its user.
#[derive(Clone, Copy, Debug, PartialEq, Eq, Structural)]
pub enum TagType {
    Ambition,
    DesiredState,
    Action,
    Plain,
}

/// A tag as shown to its user.
#[derive(Clone, Debug, PartialEq, Eq)]
pub struct TagVisible {
    pub id: Id,
    pub name: String,
    pub tag_type: TagType,
    pub created_at: Timestamp,
}

/// A field of a diary entry that a partial update may set.
#[derive(Clone, Copy, Debug, PartialEq, Eq, Structural)]
pub enum DiaryKey {
    Text,
    Date,
    Score,
    TagIds,
}

#[derive(Clone, Debug, PartialEq, Eq)]
pub struct Challenge {
    pub id: Id,
    pub user_id: Id,
    pub title: String,
    pub text: String,
    pub date: Date,
    pub archived: bool,
    pub accomplished_at: Option<Timestamp>,
    pub created_at: Timestamp,
    pub updated_at: Timestamp,
}

#[derive(Clone, Debug, PartialEq, Eq)]
pub struct MissionMemo {
    pub id: Id,
    pub user_id: Id,
    pub title: String,
    pub text: String,
    pub date: Date,
    pub archived: bool,
    pub accomplished_at: Option<Timestamp>,
    pub created_at: Timestamp,
    pub updated_at: Timestamp,
}

#[derive(Clone, Debug, PartialEq, Eq)]
pub struct Memo {
    pub id: Id,
    pub user_id: Id,
    pub title: String,
    pub text: String,
    pub date: Date,
    pub favorite: bool,
    pub archived: bool,
    pub created_at: Timestamp,
    pub updated_at: Timestamp,
}

#[derive(Clone, Debug, PartialEq, Eq)]
pub struct Diary {
    pub id: Id,
    pub user_id: Id,
    pub text: Option<String>,
    pub date: Date,
    pub score: Option<i16>,
}

#[derive(Clone, Debug, PartialEq, Eq)]
pub struct BookExcerpt {
    pub id: Id,
    pub user_id: Id,
    pub title: String,
    pub page_number: i16,
    pub text: String,
    pub date: Date,
    pub created_at: Timestamp,
    pub updated_at: Timestamp,
}

#[derive(Clone, Debug, PartialEq, Eq)]
pub struct ReadingNote {
    pub id: Id,
    pub user_id: Id,
    pub title: String,
    pub page_number: i16,
    pub text: String,
    pub date: Date,
    pub created_at: Timestamp,
    pub updated_at: Timestamp,
}

} // verus!
