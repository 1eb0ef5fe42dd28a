//! The collection of grades.

use crate::schema::ValidatedCollection;
use vstd::prelude::*;

verus! {

/// Stands for the collection of grades.
#[derive(Clone, Copy, Debug, PartialEq, Eq)]
pub struct Grade;

impl ValidatedCollection for Grade {
    open spec fn collection() -> Seq<char> {
        "grades"@
    }

    fn name() -> &'static str {
        "grades"
    }
}

} // verus!
