//! Principals: the local identity records that a token can authenticate.

use crate::oid::ObjectId;
use crate::schema::utils::{insert_once, is_set, remove_each, with, without};
use crate::schema::ValidatedCollection;
use vstd::prelude::*;

verus! {

/// What a principal is to the school. Exactly one per principal, fixed when
/// the principal is created.
#[derive(Clone, Copy, Debug, PartialEq, Eq, Structural)]
pub enum Role {
    Student,
    Teacher,
    Admin,
}

/// A principal.
#[derive(Clone, Debug, PartialEq, Eq)]
pub struct User {
    pub id: Option<ObjectId>,
    pub campus_id: Option<String>,
    pub name: String,
    pub email: String,
    pub role: Role,
    /// The subjects that the principal is enrolled in or teaches, each once.
    pub courses: Vec<ObjectId>,
}

impl User {
    /// The identifier under which the principal is stored, if it is stored.
    pub fn id(&self) -> (id: Option<ObjectId>)
        ensures
            id == self.id,
    {
        self.id
    }

    fn new(name: &String, email: &String, campus_id: Option<String>, role: Role) -> (user: Self)
        ensures
            user.id is None,
            user.campus_id == campus_id,
            user.name@ == name@,
            user.email@ == email@,
            user.role == role,
            user.courses@ == Seq::<ObjectId>::empty(),
    {
        User {
            id: None,
            campus_id,
            name: name.clone(),
            email: email.clone(),
            role,
            courses: Vec::new(),
        }
    }

    /// A teacher that is not stored yet and teaches nothing.
    pub fn new_teacher(name: &String, email: &String) -> (user: Self)
        ensures
            user.id is None,
            user.campus_id is None,
            user.name@ == name@,
            user.email@ == email@,
            user.role == Role::Teacher,
            user.courses@ == Seq::<ObjectId>::empty(),
    {
        Self::new(name, email, None, Role::Teacher)
    }

    /// A student that is not stored yet and is enrolled nowhere.
    pub fn new_student(name: &String, email: &String, campus_id: &String) -> (user: Self)
        ensures
            user.id is None,
            user.campus_id matches Some(c) && c@ == campus_id@,
            user.name@ == name@,
            user.email@ == email@,
            user.role == Role::Student,
            user.courses@ == Seq::<ObjectId>::empty(),
    {
        Self::new(name, email, Some(campus_id.clone()), Role::Student)
    }

    /// No subject is listed twice.
    pub open spec fn wf(&self) -> bool {
        self.courses@.no_duplicates()
    }

    /// Whether no subject is listed twice.
    pub fn is_wf(&self) -> (wf: bool)
        ensures
            wf == self.wf(),
    {
        is_set(&self.courses)
    }

    /// Lists `subject` among the principal's subjects, if it is not there.
    pub fn add_course(&mut self, subject: ObjectId)
        requires
            old(self).wf(),
        ensures
            final(self).wf(),
            final(self).courses@ == with(old(self).courses@, subject),
            final(self).id == old(self).id,
            final(self).campus_id == old(self).campus_id,
            final(self).name == old(self).name,
            final(self).email == old(self).email,
            final(self).role == old(self).role,
    {
        proof {
            crate::schema::utils::lemma_with(self.courses@, subject);
        }
        insert_once(&mut self.courses, subject);
    }

    /// Takes `subject` off the principal's subjects.
    pub fn remove_course(&mut self, subject: ObjectId)
        requires
            old(self).wf(),
        ensures
            final(self).wf(),
            final(self).courses@ == without(old(self).courses@, subject),
            final(self).id == old(self).id,
            final(self).campus_id == old(self).campus_id,
            final(self).name == old(self).name,
            final(self).email == old(self).email,
            final(self).role == old(self).role,
    {
        proof {
            crate::schema::utils::lemma_without(self.courses@, subject);
        }
        remove_each(&mut self.courses, subject);
    }

    /// An administrator that is not stored yet.
    pub fn new_admin(name: &String, email: &String) -> (user: Self)
        ensures
            user.id is None,
            user.campus_id is None,
            user.name@ == name@,
            user.email@ == email@,
            user.role == Role::Admin,
            user.courses@ == Seq::<ObjectId>::empty(),
    {
        Self::new(name, email, None, Role::Admin)
    }
}

impl ValidatedCollection for User {
    open spec fn collection() -> Seq<char> {
        "users"@
    }

    fn name() -> &'static str {
        "users"
    }
}

} // verus!
