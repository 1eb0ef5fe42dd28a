//! The handlers of submissions.

use crate::chain::{next, next_step, Chain, Entry, Step};
use crate::ctx::Context;
use crate::error::{AuthError, Error, Result};
use crate::oid::ObjectId;
use crate::policy::{filter_of, listing, permit, permitted, Action, Filter, ResourceKind};
use vstd::prelude::*;

verus! {

/// What a caller sends to hand in a submission.
#[derive(Clone, Debug, PartialEq, Eq)]
pub struct SubmissionForCreate {
    pub student_id: ObjectId,
    pub assessment_id: ObjectId,
    pub repo: String,
}

/// What a caller sends to change a submission.
#[derive(Clone, Debug, PartialEq, Eq)]
pub struct SubmissionForUpdate {
    pub repo: String,
}

/// Handing in the submission that `submission` describes: open to the
/// student whose submission it is, if enrolled in the subject of its
/// assessment.
pub fn create_submission(
    context: &Context,
    submission: &SubmissionForCreate,
    chain: &Chain,
) -> (step: Step)
    ensures
        step == next(
            context@,
            ResourceKind::Submission,
            Action::Create,
            Entry::NewSubmission {
                student_id: submission.student_id,
                assessment_id: submission.assessment_id,
            },
            chain@,
        ),
{
    next_step(
        context,
        ResourceKind::Submission,
        Action::Create,
        Entry::NewSubmission {
            student_id: submission.student_id,
            assessment_id: submission.assessment_id,
        },
        chain,
    )
}

/// Reading the submission `id`: open to the student who owns it, and to
/// the teachers of its assessment's subject.
pub fn get_submission(context: &Context, id: ObjectId, chain: &Chain) -> (step: Step)
    ensures
        step == next(
            context@,
            ResourceKind::Submission,
            Action::Read,
            Entry::Submission(id),
            chain@,
        ),
{
    next_step(context, ResourceKind::Submission, Action::Read, Entry::Submission(id), chain)
}

/// Listing all submissions: closed to students, and narrowed for a teacher
/// to the subjects that the teacher is a member of.
pub fn list_submissions(context: &Context) -> (filter: Result<Filter>)
    ensures
        match filter {
            Ok(filter) => filter_of(context@, ResourceKind::Submission) == Some(filter),
            Err(e) => filter_of(context@, ResourceKind::Submission) is None && e == Error::Auth(
                AuthError::Forbidden,
            ),
        },
{
    listing(context, ResourceKind::Submission)
}

/// Changing the submission `id`: open to the student who owns it.
pub fn update_submission(context: &Context, id: ObjectId, chain: &Chain) -> (step: Step)
    ensures
        step == next(
            context@,
            ResourceKind::Submission,
            Action::Update,
            Entry::Submission(id),
            chain@,
        ),
{
    next_step(context, ResourceKind::Submission, Action::Update, Entry::Submission(id), chain)
}

/// Deleting a submission: open to administrators only.
pub fn delete_submission(context: &Context) -> (outcome: Result<()>)
    ensures
        outcome is Ok <==> permitted(context@, ResourceKind::Submission, Action::Delete),
        outcome matches Err(e) ==> e == Error::Auth(AuthError::Forbidden),
{
    permit(context, ResourceKind::Submission, Action::Delete)
}

/// Grading the submission `id`: open to the teachers of its assessment's
/// subject.
pub fn grade_submission(context: &Context, id: ObjectId, chain: &Chain) -> (step: Step)
    ensures
        step == next(
            context@,
            ResourceKind::Submission,
            Action::Grade,
            Entry::Submission(id),
            chain@,
        ),
{
    next_step(context, ResourceKind::Submission, Action::Grade, Entry::Submission(id), chain)
}

} // verus!
