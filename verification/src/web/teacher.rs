//! The handlers of teacher accounts.

use crate::ctx::Context;
use crate::error::{AuthError, Error, Result};
use crate::oid::ObjectId;
use crate::policy::{filter_of, listing, permit, permitted, Action, Filter, ResourceKind};
use crate::schema::{Role, User};
use vstd::prelude::*;

verus! {

/// What a caller sends to create or change a teacher.
#[derive(Clone, Debug, PartialEq, Eq)]
pub struct TeacherForCU {
    pub name: String,
    pub email: String,
}

/// Creating a teacher: open to administrators only. Gives the principal
/// to store.
pub fn create_teacher(context: &Context, teacher: &TeacherForCU) -> (created: Result<User>)
    ensures
        created is Ok <==> permitted(context@, ResourceKind::Account, Action::Create),
        created matches Err(e) ==> e == Error::Auth(AuthError::Forbidden),
        created matches Ok(user) ==> user.id is None && user.name@ == teacher.name@ && user.email@
            == teacher.email@ && user.role == Role::Teacher && user.campus_id is None
            && user.courses@ == Seq::<ObjectId>::empty(),
{
    permit(context, ResourceKind::Account, Action::Create)?;
    Ok(User::new_teacher(&teacher.name, &teacher.email))
}

/// Listing teachers: open to administrators only.
pub fn list_teachers(context: &Context) -> (filter: Result<Filter>)
    ensures
        match filter {
            Ok(filter) => filter_of(context@, ResourceKind::Account) == Some(filter),
            Err(e) => filter_of(context@, ResourceKind::Account) is None && e == Error::Auth(
                AuthError::Forbidden,
            ),
        },
{
    listing(context, ResourceKind::Account)
}

/// Changing a teacher: open to administrators only.
pub fn update_teacher(context: &Context) -> (outcome: Result<()>)
    ensures
        outcome is Ok <==> permitted(context@, ResourceKind::Account, Action::Update),
        outcome matches Err(e) ==> e == Error::Auth(AuthError::Forbidden),
{
    permit(context, ResourceKind::Account, Action::Update)
}

/// Deleting a teacher: open to administrators only.
pub fn delete_teacher(context: &Context) -> (outcome: Result<()>)
    ensures
        outcome is Ok <==> permitted(context@, ResourceKind::Account, Action::Delete),
        outcome matches Err(e) ==> e == Error::Auth(AuthError::Forbidden),
{
    permit(context, ResourceKind::Account, Action::Delete)
}

} // verus!
