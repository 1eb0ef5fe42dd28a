//! Assessments and their questions.

use crate::oid::ObjectId;
use crate::schema::{Role, ValidatedCollection};
use vstd::prelude::*;

verus! {

/// Marks taken off an answer, and why.
#[derive(Clone, Debug, PartialEq, Eq)]
pub struct Reduction {
    pub reason: String,
    pub marks: u32,
}

/// One question of an assessment.
#[derive(Clone, Debug, PartialEq, Eq)]
pub struct Question {
    pub full_marks: u32,
    pub reductions: Vec<Reduction>,
    pub content: String,
}

/// An assessment of a subject.
#[derive(Clone, Debug, PartialEq, Eq)]
pub struct Assessment {
    pub id: Option<ObjectId>,
    pub name: String,
    pub subject_id: ObjectId,
    pub questions: Vec<Question>,
}

impl Assessment {
    /// An assessment that is not stored yet.
    pub fn new(name: String, subject_id: ObjectId, questions: Vec<Question>) -> (assessment: Self)
        ensures
            assessment.id is None,
            assessment.name == name,
            assessment.subject_id == subject_id,
            assessment.questions == questions,
    {
        Self { id: None, name, subject_id, questions }
    }

    /// The assessment as a caller of role `role` may see it: a student
    /// gets it without the questions and their marks.
    pub fn redacted(self, role: Role) -> (shown: Self)
        ensures
            shown.id == self.id,
            shown.name == self.name,
            shown.subject_id == self.subject_id,
            role == Role::Student ==> shown.questions@ == Seq::<Question>::empty(),
            role != Role::Student ==> shown.questions == self.questions,
    {
        match role {
            Role::Student => Self {
                id: self.id,
                name: self.name,
                subject_id: self.subject_id,
                questions: Vec::new(),
            },
            _ => self,
        }
    }
}

impl ValidatedCollection for Assessment {
    open spec fn collection() -> Seq<char> {
        "assessments"@
    }

    fn name() -> &'static str {
        "assessments"
    }
}

} // verus!
