//! The stored records of the school: principals, subjects, assessments and
//! submissions.

pub mod assessment;
pub mod grade;
pub mod group;
pub mod student;
pub mod subject;
pub mod submission;
pub mod teacher;
pub mod user;
pub mod utils;

pub use assessment::{Assessment, Question, Reduction};
pub use subject::{Semester, Subject};
pub use submission::{Grade, Submission};
pub use user::{Role, User};

use crate::error::{Error, Result};
use crate::oid::ObjectId;
use crate::token::{token_text, TokenCodec};
use vstd::prelude::*;

verus! {

/// A kind of record that is stored in a collection of its own.
pub trait ValidatedCollection {
    /// The name of the collection.
    spec fn collection() -> Seq<char>;

    /// The name of the collection.
    fn name() -> (name: &'static str)
        ensures
            name@ == Self::collection(),
    ;
}

/// A token for the principal `id`, issued at time `now`. Fails only where
/// the codec has no expiry for a token of that time.
pub fn get_token(id: ObjectId, now: u64, codec: &TokenCodec) -> (token: Result<Vec<u8>>)
    ensures
        match token {
            Ok(text) => codec.lifetime().expiry(now) is Some && text@ == token_text(
                codec.claims_at(id, now),
                codec.secret(),
            ),
            Err(e) => codec.lifetime().expiry(now) is None && e == Error::MiscError,
        },
{
    match codec.expiry_at(now) {
        Some(_) => Ok(codec.issue(id, now)),
        None => Err(Error::MiscError),
    }
}

} // verus!
