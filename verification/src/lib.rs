//! Verified service logic of a goal-tracking application: what each service
//! decides when it creates, updates, archives, orders, links or deletes records.
//! Storage and transport stand outside this crate; its functions take what was
//! read and give back what is to be written.
use vstd::prelude::*;

pub mod entities;
pub mod error;
pub mod ids;
pub mod ordering;
pub mod services;
pub mod settings;
pub mod tag_links;
pub mod test_utils;
pub mod time;

verus! {

} // verus!
