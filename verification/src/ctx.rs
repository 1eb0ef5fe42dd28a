//! The context of one authenticated request.

use crate::oid::ObjectId;
use crate::schema::Role;
use vstd::prelude::*;

verus! {

/// Who makes a request, and in which role. Derived once per request from
/// the bearer token and the principal's record, never stored, and read-only
/// to handlers.
#[derive(Clone, Copy, Debug)]
pub struct Context {
    user_id: ObjectId,
    role: Role,
}

/// What a `Context` holds.
pub ghost struct ContextView {
    pub user_id: ObjectId,
    pub role: Role,
}

impl View for Context {
    type V = ContextView;

    closed spec fn view(&self) -> ContextView {
        ContextView { user_id: self.user_id, role: self.role }
    }
}

impl Context {
    pub fn new(user_id: ObjectId, role: Role) -> (context: Self)
        ensures
            context@ == (ContextView { user_id, role }),
    {
        Self { user_id, role }
    }

    pub fn user_id(&self) -> (user_id: ObjectId)
        ensures
            user_id == self@.user_id,
    {
        self.user_id
    }

    pub fn role(&self) -> (role: Role)
        ensures
            role == self@.role,
    {
        self.role
    }
}

} // verus!
