//! The handlers of student accounts.

use crate::ctx::Context;
use crate::error::{AuthError, Error, Result};
use crate::oid::ObjectId;
use crate::policy::{filter_of, listing, permit, permitted, Action, Filter, ResourceKind};
use crate::schema::{Role, User};
use vstd::prelude::*;

verus! {

/// What a caller sends to create or change a student.
#[derive(Clone, Debug, PartialEq, Eq)]
pub struct StudentForCU {
    pub name: String,
    pub email: String,
    pub campus_id: String,
}

/// Creating a student: open to administrators only. Gives the principal
/// to store.
pub fn create_student(context: &Context, student: &StudentForCU) -> (created: Result<User>)
    ensures
        created is Ok <==> permitted(context@, ResourceKind::Account, Action::Create),
        created matches Err(e) ==> e == Error::Auth(AuthError::Forbidden),
        created matches Ok(user) ==> user.id is None && user.name@ == student.name@ && user.email@
            == student.email@ && user.role == Role::Student && (user.campus_id matches Some(c)
            && c@ == student.campus_id@) && user.courses@ == Seq::<ObjectId>::empty(),
{
    permit(context, ResourceKind::Account, Action::Create)?;
    Ok(User::new_student(&student.name, &student.email, &student.campus_id))
}

/// Listing students: open to administrators only.
pub fn list_students(context: &Context) -> (filter: Result<Filter>)
    ensures
        match filter {
            Ok(filter) => filter_of(context@, ResourceKind::Account) == Some(filter),
            Err(e) => filter_of(context@, ResourceKind::Account) is None && e == Error::Auth(
                AuthError::Forbidden,
            ),
        },
{
    listing(context, ResourceKind::Account)
}

/// Changing a student: open to administrators only.
pub fn update_student(context: &Context) -> (outcome: Result<()>)
    ensures
        outcome is Ok <==> permitted(context@, ResourceKind::Account, Action::Update),
        outcome matches Err(e) ==> e == Error::Auth(AuthError::Forbidden),
{
    permit(context, ResourceKind::Account, Action::Update)
}

/// Deleting a student: open to administrators only.
pub fn delete_student(context: &Context) -> (outcome: Result<()>)
    ensures
        outcome is Ok <==> permitted(context@, ResourceKind::Account, Action::Delete),
        outcome matches Err(e) ==> e == Error::Auth(AuthError::Forbidden),
{
    permit(context, ResourceKind::Account, Action::Delete)
}

} // verus!
