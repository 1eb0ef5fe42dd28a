//! What the request handlers decide, one module for each group of routes.
//! Fetching and storing records is the caller's part.

pub mod assessment;
pub mod auth;
pub mod group;
pub mod middleware;
pub mod student;
pub mod subject;
pub mod submission;
pub mod teacher;

use vstd::prelude::*;

verus! {

/// Whether a response reports success.
#[derive(Clone, Copy, Debug, PartialEq, Eq, Structural)]
pub enum Status {
    Success,
    Failure,
}

} // verus!
