//! The handlers of subjects and of their members.

use crate::chain::{next, next_step, Chain, Entry, Step};
use crate::ctx::Context;
use crate::error::{AuthError, Error, Result};
use crate::oid::ObjectId;
use crate::policy::{filter_of, listing, permit, permitted, Action, Filter, ResourceKind};
use crate::schema::utils::{with, without};
use crate::schema::{Semester, Subject, User};
use vstd::prelude::*;

verus! {

/// What a caller sends to create or change a subject.
#[derive(Clone, Debug, PartialEq, Eq)]
pub struct SubjectForCU {
    pub name: String,
    pub year: u32,
    pub semester: Semester,
}

/// Creating a subject: open to administrators only. Gives the subject to
/// store.
pub fn create_subject(context: &Context, subject: &SubjectForCU) -> (created: Result<Subject>)
    ensures
        created is Ok <==> permitted(context@, ResourceKind::Subject, Action::Create),
        created matches Err(e) ==> e == Error::Auth(AuthError::Forbidden),
        created matches Ok(new) ==> new.id is None && new.name@ == subject.name@ && new.year
            == subject.year && new.semester == subject.semester && new.members@ == Seq::<
            ObjectId,
        >::empty(),
{
    permit(context, ResourceKind::Subject, Action::Create)?;
    Ok(Subject::new(&subject.name, subject.year, subject.semester))
}

/// Listing subjects: never refused, but narrowed to the subjects that the
/// caller is a member of, unless the caller is an administrator.
pub fn list_subjects(context: &Context) -> (filter: Result<Filter>)
    ensures
        filter matches Ok(found) && filter_of(context@, ResourceKind::Subject) == Some(found),
{
    listing(context, ResourceKind::Subject)
}

/// Changing a subject: open to administrators only.
pub fn update_subject(context: &Context) -> (outcome: Result<()>)
    ensures
        outcome is Ok <==> permitted(context@, ResourceKind::Subject, Action::Update),
        outcome matches Err(e) ==> e == Error::Auth(AuthError::Forbidden),
{
    permit(context, ResourceKind::Subject, Action::Update)
}

/// Deleting a subject: open to administrators only.
pub fn delete_subject(context: &Context) -> (outcome: Result<()>)
    ensures
        outcome is Ok <==> permitted(context@, ResourceKind::Subject, Action::Delete),
        outcome matches Err(e) ==> e == Error::Auth(AuthError::Forbidden),
{
    permit(context, ResourceKind::Subject, Action::Delete)
}

/// Makes the principal `user_id` a member of the subject `subject_id`:
/// open to administrators only. On success the subject lists the member
/// and the principal lists the subject; on failure both lists are as
/// before. Nothing else of the two records changes either way.
pub fn join_subject(
    context: &Context,
    subject_id: ObjectId,
    subject: &mut Subject,
    user_id: ObjectId,
    user: &mut User,
) -> (outcome: Result<()>)
    requires
        old(subject).wf(),
        old(user).wf(),
    ensures
        outcome is Ok <==> permitted(context@, ResourceKind::Subject, Action::Relate),
        outcome matches Err(e) ==> e == Error::Auth(AuthError::Forbidden),
        final(subject).wf(),
        final(user).wf(),
        final(subject).members@ == if outcome is Ok {
            with(old(subject).members@, user_id)
        } else {
            old(subject).members@
        },
        final(user).courses@ == if outcome is Ok {
            with(old(user).courses@, subject_id)
        } else {
            old(user).courses@
        },
        final(subject).id == old(subject).id,
        final(subject).name == old(subject).name,
        final(subject).year == old(subject).year,
        final(subject).semester == old(subject).semester,
        final(user).id == old(user).id,
        final(user).campus_id == old(user).campus_id,
        final(user).name == old(user).name,
        final(user).email == old(user).email,
        final(user).role == old(user).role,
{
    permit(context, ResourceKind::Subject, Action::Relate)?;
    subject.add_member(user_id);
    user.add_course(subject_id);
    Ok(())
}

/// Takes the principal `user_id` out of the subject `subject_id`: open to
/// administrators only. On success the subject no longer lists the member
/// nor the principal the subject; on failure both lists are as before.
/// Nothing else of the two records changes either way.
pub fn drop_subject(
    context: &Context,
    subject_id: ObjectId,
    subject: &mut Subject,
    user_id: ObjectId,
    user: &mut User,
) -> (outcome: Result<()>)
    requires
        old(subject).wf(),
        old(user).wf(),
    ensures
        outcome is Ok <==> permitted(context@, ResourceKind::Subject, Action::Relate),
        outcome matches Err(e) ==> e == Error::Auth(AuthError::Forbidden),
        final(subject).wf(),
        final(user).wf(),
        final(subject).members@ == if outcome is Ok {
            without(old(subject).members@, user_id)
        } else {
            old(subject).members@
        },
        final(user).courses@ == if outcome is Ok {
            without(old(user).courses@, subject_id)
        } else {
            old(user).courses@
        },
        final(subject).id == old(subject).id,
        final(subject).name == old(subject).name,
        final(subject).year == old(subject).year,
        final(subject).semester == old(subject).semester,
        final(user).id == old(user).id,
        final(user).campus_id == old(user).campus_id,
        final(user).name == old(user).name,
        final(user).email == old(user).email,
        final(user).role == old(user).role,
{
    permit(context, ResourceKind::Subject, Action::Relate)?;
    subject.remove_member(user_id);
    user.remove_course(subject_id);
    Ok(())
}

/// Listing the assessments of the subject `id`: open to its members.
pub fn subject_assessments(context: &Context, id: ObjectId, chain: &Chain) -> (step: Step)
    ensures
        step == next(
            context@,
            ResourceKind::Assessment,
            Action::List,
            Entry::Subject(id),
            chain@,
        ),
{
    next_step(context, ResourceKind::Assessment, Action::List, Entry::Subject(id), chain)
}

} // verus!
