//! The handlers of assessments.

use crate::chain::{next, next_step, Chain, Entry, Step};
use crate::ctx::Context;
use crate::error::{AuthError, Error, Result};
use crate::oid::ObjectId;
use crate::policy::{filter_of, listing, Action, Filter, ResourceKind};
use crate::schema::{Assessment, Question, Role};
use vstd::prelude::*;

verus! {

/// What a caller sends to create an assessment.
#[derive(Clone, Debug, PartialEq, Eq)]
pub struct AssessmentForCreate {
    pub subject_id: ObjectId,
    pub name: String,
    pub questions: Vec<Question>,
}

/// What a caller sends to change an assessment.
#[derive(Clone, Debug, PartialEq, Eq)]
pub struct AssessmentForUpdate {
    pub name: String,
    pub questions: Vec<Question>,
}

/// Creating the assessment that `assessment` describes: open to members
/// of its subject who teach.
pub fn create_assessment(
    context: &Context,
    assessment: &AssessmentForCreate,
    chain: &Chain,
) -> (step: Step)
    ensures
        step == next(
            context@,
            ResourceKind::Assessment,
            Action::Create,
            Entry::Subject(assessment.subject_id),
            chain@,
        ),
{
    next_step(
        context,
        ResourceKind::Assessment,
        Action::Create,
        Entry::Subject(assessment.subject_id),
        chain,
    )
}

/// Reading the assessment `id`: open to the members of its subject.
pub fn get_assessments(context: &Context, id: ObjectId, chain: &Chain) -> (step: Step)
    ensures
        step == next(
            context@,
            ResourceKind::Assessment,
            Action::Read,
            Entry::Assessment(id),
            chain@,
        ),
{
    next_step(context, ResourceKind::Assessment, Action::Read, Entry::Assessment(id), chain)
}

/// The assessment as the caller gets it once reading is allowed: without
/// the questions and their marks for a student, whole for everybody else.
pub fn shown_assessment(context: &Context, assessment: Assessment) -> (shown: Assessment)
    ensures
        shown.id == assessment.id,
        shown.name == assessment.name,
        shown.subject_id == assessment.subject_id,
        context@.role == Role::Student ==> shown.questions@ == Seq::<Question>::empty(),
        context@.role != Role::Student ==> shown.questions == assessment.questions,
{
    assessment.redacted(context.role())
}

/// Listing all assessments: narrowed to the subjects that the caller is a
/// member of.
pub fn list_assessments(context: &Context) -> (filter: Result<Filter>)
    ensures
        match filter {
            Ok(filter) => filter_of(context@, ResourceKind::Assessment) == Some(filter),
            Err(e) => filter_of(context@, ResourceKind::Assessment) is None && e == Error::Auth(
                AuthError::Forbidden,
            ),
        },
{
    listing(context, ResourceKind::Assessment)
}

/// Changing the assessment `id`: open to members of its subject who teach.
pub fn update_assessment(context: &Context, id: ObjectId, chain: &Chain) -> (step: Step)
    ensures
        step == next(
            context@,
            ResourceKind::Assessment,
            Action::Update,
            Entry::Assessment(id),
            chain@,
        ),
{
    next_step(context, ResourceKind::Assessment, Action::Update, Entry::Assessment(id), chain)
}

/// Deleting the assessment `id`: open to members of its subject who teach.
pub fn delete_assessment(context: &Context, id: ObjectId, chain: &Chain) -> (step: Step)
    ensures
        step == next(
            context@,
            ResourceKind::Assessment,
            Action::Delete,
            Entry::Assessment(id),
            chain@,
        ),
{
    next_step(context, ResourceKind::Assessment, Action::Delete, Entry::Assessment(id), chain)
}

/// Listing the submissions to the assessment `id`: open to members of its
/// subject who teach.
pub fn assessment_submissions(context: &Context, id: ObjectId, chain: &Chain) -> (step: Step)
    ensures
        step == next(
            context@,
            ResourceKind::Submission,
            Action::List,
            Entry::Assessment(id),
            chain@,
        ),
{
    next_step(context, ResourceKind::Submission, Action::List, Entry::Assessment(id), chain)
}

} // verus!
