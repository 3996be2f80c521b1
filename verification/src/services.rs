//! One module for each service: what it decides, given what was read.
pub mod action;
pub mod action_mutation;
pub mod action_query;
pub mod action_track_mutation;
pub mod action_track_query;
pub mod ambition;
pub mod ambition_mutation;
pub mod ambition_query;
pub mod book_excerpt_mutation;
pub mod book_excerpt_query;
pub mod challenge_mutation;
pub mod challenge_query;
pub mod desired_state_category_mutation;
pub mod desired_state_category_query;
pub mod desired_state_mutation;
pub mod desired_state_query;
pub mod diary_mutation;
pub mod diary_query;
pub mod memo_mutation;
pub mod memo_query;
pub mod mindset_mutation;
pub mod mindset_query;
pub mod mission_memo_mutation;
pub mod mission_memo_query;
pub mod objective;
pub mod objective_mutation;
pub mod objective_query;
pub mod reading_note_mutation;
pub mod reading_note_query;
pub mod tag_mutation;
pub mod tag_query;
pub mod user;
