//! What the routes of groups take.

use vstd::prelude::*;

verus! {

/// What a caller sends to create or change a group.
#[derive(Clone, Debug, PartialEq, Eq)]
pub struct GroupForCreate {
    pub name: String,
    pub year: u32,
}

} // verus!
