//! Submissions of students to assessments.

use crate::oid::ObjectId;
use crate::schema::assessment::Question;
use crate::schema::ValidatedCollection;
use vstd::prelude::*;

verus! {

/// The marking of a submission, question by question.
#[derive(Clone, Debug, PartialEq, Eq)]
pub struct Grade {
    pub questions: Vec<Question>,
}

/// What a student handed in for an assessment.
#[derive(Clone, Debug, PartialEq, Eq)]
pub struct Submission {
    pub id: Option<ObjectId>,
    /// The student who owns the submission.
    pub student_id: ObjectId,
    pub assessment_id: ObjectId,
    pub repo: String,
    pub grade: Option<Grade>,
}

impl Submission {
    /// A submission that is not stored yet and not graded.
    pub fn new(student_id: ObjectId, assessment_id: ObjectId, repo: String) -> (submission: Self)
        ensures
            submission.id is None,
            submission.student_id == student_id,
            submission.assessment_id == assessment_id,
            submission.repo == repo,
            submission.grade is None,
    {
        Self { id: None, student_id, assessment_id, repo, grade: None }
    }
}

impl ValidatedCollection for Submission {
    open spec fn collection() -> Seq<char> {
        "submissions"@
    }

    fn name() -> &'static str {
        "submissions"
    }
}

} // verus!
