//! Subjects, and who belongs to them.

use crate::oid::ObjectId;
use crate::schema::utils::{contains, insert_once, is_set, remove_each, with, without};
use crate::schema::ValidatedCollection;
use vstd::prelude::*;

verus! {

/// The part of the year in which a subject is taught.
#[derive(Clone, Copy, Debug, PartialEq, Eq, Structural)]
pub enum Semester {
    Fall,
    Spring,
    Summer,
}

/// A subject. Its members are the students enrolled in it and the teachers
/// who teach it; access to what belongs to the subject goes by this list.
#[derive(Clone, Debug, PartialEq, Eq)]
pub struct Subject {
    pub id: Option<ObjectId>,
    pub name: String,
    pub year: u32,
    pub semester: Semester,
    /// The members, each once, in the order in which they joined.
    pub members: Vec<ObjectId>,
}

impl Subject {
    /// No member is listed twice.
    pub open spec fn wf(&self) -> bool {
        self.members@.no_duplicates()
    }

    /// Whether no member is listed twice.
    pub fn is_wf(&self) -> (wf: bool)
        ensures
            wf == self.wf(),
    {
        is_set(&self.members)
    }

    /// A subject that is not stored yet and has no members.
    pub fn new(name: &String, year: u32, semester: Semester) -> (subject: Self)
        ensures
            subject.id is None,
            subject.name@ == name@,
            subject.year == year,
            subject.semester == semester,
            subject.members@ == Seq::<ObjectId>::empty(),
            subject.wf(),
    {
        Subject { id: None, name: name.clone(), year, semester, members: Vec::new() }
    }

    /// Whether `user` is a member.
    pub fn has_member(&self, user: ObjectId) -> (member: bool)
        ensures
            member == self.members@.contains(user),
    {
        contains(&self.members, user)
    }

    /// Makes `user` a member, if not one already.
    pub fn add_member(&mut self, user: ObjectId)
        requires
            old(self).wf(),
        ensures
            final(self).wf(),
            final(self).members@ == with(old(self).members@, user),
            final(self).members@.contains(user),
            final(self).id == old(self).id,
            final(self).name == old(self).name,
            final(self).year == old(self).year,
            final(self).semester == old(self).semester,
    {
        proof {
            crate::schema::utils::lemma_with(self.members@, user);
        }
        insert_once(&mut self.members, user);
    }

    /// Takes `user` out of the members.
    pub fn remove_member(&mut self, user: ObjectId)
        requires
            old(self).wf(),
        ensures
            final(self).wf(),
            final(self).members@ == without(old(self).members@, user),
            !final(self).members@.contains(user),
            final(self).id == old(self).id,
            final(self).name == old(self).name,
            final(self).year == old(self).year,
            final(self).semester == old(self).semester,
    {
        proof {
            crate::schema::utils::lemma_without(self.members@, user);
        }
        remove_each(&mut self.members, user);
    }
}

impl ValidatedCollection for Subject {
    open spec fn collection() -> Seq<char> {
        "subjects"@
    }

    fn name() -> &'static str {
        "subjects"
    }
}

} // verus!
