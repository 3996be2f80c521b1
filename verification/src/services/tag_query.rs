//! Listing tags. The listing is a plain read of the store; no decision is left
//! for this crate.
use vstd::prelude::*;

verus! {

pub struct TagQuery;

} // verus!
