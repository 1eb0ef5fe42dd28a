//! Groups of students of one year.

use crate::oid::ObjectId;
use crate::schema::ValidatedCollection;
use vstd::prelude::*;

verus! {

/// A group of students.
#[derive(Clone, Debug, PartialEq, Eq)]
pub struct Group {
    pub id: Option<ObjectId>,
    pub name: String,
    pub year: u32,
}

impl ValidatedCollection for Group {
    open spec fn collection() -> Seq<char> {
        "groups"@
    }

    fn name() -> &'static str {
        "groups"
    }
}

} // verus!
