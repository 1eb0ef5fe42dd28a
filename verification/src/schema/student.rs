//! Students as members of a group.

use crate::oid::ObjectId;
use crate::schema::ValidatedCollection;
use vstd::prelude::*;

verus! {

/// A student of a group.
#[derive(Clone, Debug, PartialEq, Eq)]
pub struct Student {
    pub name: String,
    pub email: String,
    pub group_id: ObjectId,
}

impl ValidatedCollection for Student {
    open spec fn collection() -> Seq<char> {
        "students"@
    }

    fn name() -> &'static str {
        "students"
    }
}

} // verus!
