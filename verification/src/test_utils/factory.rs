//! One builder for each kind of record: a function that makes a sample record
//! of a user, and a trait whose methods change one field of it at a time.
use vstd::prelude::*;

pub mod action;
pub mod action_track;
pub mod ambition;
pub mod book_excerpt;
pub mod challenge;
pub mod desired_state;
pub mod diary;
pub mod memo;
pub mod mindset;
pub mod mission_memo;
pub mod objective;
pub mod tag;
pub mod user;

verus! {

/// A field of a record being built: given a value, or left for the store to
/// fill in.
#[derive(Clone, Copy, Debug, PartialEq, Eq, Structural)]
pub enum Field<T> {
    Value(T),
    NotSet,
}

} // verus!
