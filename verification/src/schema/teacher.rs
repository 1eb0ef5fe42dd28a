//! The collection of teachers.

use crate::schema::ValidatedCollection;
use vstd::prelude::*;

verus! {

/// Stands for the collection of teachers.
#[derive(Clone, Copy, Debug, PartialEq, Eq)]
pub struct Teacher;

impl ValidatedCollection for Teacher {
    open spec fn collection() -> Seq<char> {
        "teachers"@
    }

    fn name() -> &'static str {
        "teachers"
    }
}

} // verus!
