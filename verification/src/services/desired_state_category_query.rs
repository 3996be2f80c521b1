//! Looking up the categories of desired states. Both lookups are plain reads of
//! the store; no decision is left for this crate.
use vstd::prelude::*;

verus! {

pub struct DesiredStateCategoryQuery;

} // verus!
