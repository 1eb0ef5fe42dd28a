use campus_auth::chain::{next_step, Chain, Entry, Lookup, Step, SubmissionLink};
use campus_auth::ctx::Context;
use campus_auth::error::{AuthError, Error, IntegrityError};
use campus_auth::oid::ObjectId;
use campus_auth::policy::{Action, DenyReason, ResourceKind};
use campus_auth::schema::{Assessment, Question, Role};
use campus_auth::web::assessment::{
    assessment_submissions, create_assessment, delete_assessment, get_assessments,
    shown_assessment, update_assessment, AssessmentForCreate,
};
use campus_auth::web::subject::subject_assessments;
use campus_auth::web::submission::{
    create_submission, get_submission, grade_submission, update_submission,
    SubmissionForCreate,
};

fn id(n: u64) -> ObjectId {
    ObjectId { timestamp: 7, tail: n }
}

const S: u64 = 1;
const T: u64 = 2;
const SUBJECT_X: u64 = 10;
const SUBJECT_Z: u64 = 11;
const ASSESSMENT: u64 = 20;
const SUBMISSION: u64 = 30;

fn new_submission(student: u64, assessment: u64) -> SubmissionForCreate {
    SubmissionForCreate {
        student_id: id(student),
        assessment_id: id(assessment),
        repo: "https://git.example/repo".to_string(),
    }
}

fn new_assessment(subject: u64) -> AssessmentForCreate {
    AssessmentForCreate { subject_id: id(subject), name: "Quiz".to_string(), questions: vec![] }
}

fn question() -> Question {
    Question { full_marks: 10, reductions: vec![], content: "Why?".to_string() }
}

/// Runs a request to its end against a store in which subject X has the
/// given members, subject Z has none, the assessment belongs to
/// `assessment_subject` and the submission is the student's to the
/// assessment. Gives the end and what was fetched on the way.
fn run(
    ask: impl Fn(&Chain) -> Step,
    members_of_x: &[u64],
    assessment_subject: Option<u64>,
) -> (Step, Vec<Lookup>) {
    let mut chain = Chain::new();
    let mut fetched = Vec::new();
    loop {
        match ask(&chain) {
            Step::Fetch(lookup) => {
                fetched.push(lookup);
                assert!(fetched.len() <= 3);
                match lookup {
                    Lookup::Submission(n) => chain.found_submission(if n == id(SUBMISSION) {
                        Some(SubmissionLink { student_id: id(S), assessment_id: id(ASSESSMENT) })
                    } else {
                        None
                    }),
                    Lookup::Assessment(n) => chain.found_assessment(if n == id(ASSESSMENT) {
                        assessment_subject.map(id)
                    } else {
                        None
                    }),
                    Lookup::Subject(n) => chain.found_subject(if n == id(SUBJECT_X) {
                        Some(members_of_x.iter().map(|m| id(*m)).collect())
                    } else if n == id(SUBJECT_Z) {
                        Some(vec![])
                    } else {
                        None
                    }),
                }
            }
            end => return (end, fetched),
        }
    }
}

#[test]
fn enrolled_student_reads_assessment_without_questions() {
    let student = Context::new(id(S), Role::Student);
    let (end, fetched) =
        run(|c| get_assessments(&student, id(ASSESSMENT), c), &[T, S], Some(SUBJECT_X));
    assert_eq!(end, Step::Allow);
    assert_eq!(fetched, vec![Lookup::Assessment(id(ASSESSMENT)), Lookup::Subject(id(SUBJECT_X))]);
    let stored = Assessment {
        id: Some(id(ASSESSMENT)),
        name: "Quiz".to_string(),
        subject_id: id(SUBJECT_X),
        questions: vec![question(), question()],
    };
    let shown = shown_assessment(&student, stored.clone());
    assert_eq!(shown.questions, vec![]);
    assert_eq!(shown.id, stored.id);
    assert_eq!(shown.name, stored.name);
    assert_eq!(shown.subject_id, stored.subject_id);
}

#[test]
fn teacher_and_admin_read_assessment_whole() {
    let stored = Assessment {
        id: Some(id(ASSESSMENT)),
        name: "Quiz".to_string(),
        subject_id: id(SUBJECT_X),
        questions: vec![question()],
    };
    for role in [Role::Teacher, Role::Admin] {
        let context = Context::new(id(T), role);
        assert_eq!(shown_assessment(&context, stored.clone()), stored);
        assert_eq!(stored.clone().redacted(role), stored);
    }
    assert_eq!(stored.clone().redacted(Role::Student).questions, vec![]);
}

#[test]
fn student_of_another_subject_is_forbidden_to_read() {
    let student = Context::new(id(S), Role::Student);
    let (end, _) = run(|c| get_assessments(&student, id(ASSESSMENT), c), &[T], Some(SUBJECT_X));
    assert_eq!(end, Step::Forbidden(DenyReason::NotMember));
    assert_eq!(end.outcome(), Some(Err(Error::Auth(AuthError::Forbidden))));
}

#[test]
fn teacher_grades_in_own_subject_and_not_in_another() {
    let teacher = Context::new(id(T), Role::Teacher);
    let (end, fetched) =
        run(|c| grade_submission(&teacher, id(SUBMISSION), c), &[T, S], Some(SUBJECT_X));
    assert_eq!(end, Step::Allow);
    assert_eq!(
        fetched,
        vec![
            Lookup::Submission(id(SUBMISSION)),
            Lookup::Assessment(id(ASSESSMENT)),
            Lookup::Subject(id(SUBJECT_X)),
        ]
    );
    let (end, _) =
        run(|c| grade_submission(&teacher, id(SUBMISSION), c), &[T, S], Some(SUBJECT_Z));
    assert_eq!(end, Step::Forbidden(DenyReason::NotMember));
}

#[test]
fn admin_is_allowed_without_any_lookup() {
    let admin = Context::new(id(99), Role::Admin);
    for (end, fetched) in [
        run(|c| grade_submission(&admin, id(SUBMISSION), c), &[], None),
        run(|c| get_submission(&admin, id(404), c), &[], None),
        run(|c| update_submission(&admin, id(SUBMISSION), c), &[], None),
        run(|c| create_submission(&admin, &new_submission(S, 404), c), &[], None),
        run(|c| get_assessments(&admin, id(404), c), &[], None),
        run(|c| create_assessment(&admin, &new_assessment(404), c), &[], None),
        run(|c| update_assessment(&admin, id(ASSESSMENT), c), &[], None),
        run(|c| delete_assessment(&admin, id(ASSESSMENT), c), &[], None),
        run(|c| assessment_submissions(&admin, id(ASSESSMENT), c), &[], None),
        run(|c| subject_assessments(&admin, id(404), c), &[], None),
    ] {
        assert_eq!(end, Step::Allow);
        assert_eq!(fetched, vec![]);
    }
}

#[test]
fn role_that_is_closed_out_is_forbidden_without_any_lookup() {
    let student = Context::new(id(S), Role::Student);
    let teacher = Context::new(id(T), Role::Teacher);
    for (end, fetched) in [
        run(|c| grade_submission(&student, id(SUBMISSION), c), &[S], Some(SUBJECT_X)),
        run(|c| create_assessment(&student, &new_assessment(SUBJECT_X), c), &[S], Some(SUBJECT_X)),
        run(|c| update_assessment(&student, id(ASSESSMENT), c), &[S], Some(SUBJECT_X)),
        run(|c| delete_assessment(&student, id(404), c), &[S], Some(SUBJECT_X)),
        run(|c| assessment_submissions(&student, id(ASSESSMENT), c), &[S], Some(SUBJECT_X)),
        run(|c| create_submission(&teacher, &new_submission(T, ASSESSMENT), c), &[T], Some(SUBJECT_X)),
        run(|c| update_submission(&teacher, id(SUBMISSION), c), &[T], Some(SUBJECT_X)),
    ] {
        assert_eq!(end, Step::Forbidden(DenyReason::Role));
        assert_eq!(fetched, vec![]);
    }
}

#[test]
fn missing_record_on_the_chain_is_not_found() {
    let teacher = Context::new(id(T), Role::Teacher);
    let (end, fetched) = run(|c| grade_submission(&teacher, id(404), c), &[T], Some(SUBJECT_X));
    assert_eq!(end, Step::NotFound);
    assert_eq!(fetched, vec![Lookup::Submission(id(404))]);
    let (end, fetched) = run(|c| grade_submission(&teacher, id(SUBMISSION), c), &[T], None);
    assert_eq!(end, Step::NotFound);
    assert_eq!(fetched.len(), 2);
    let (end, fetched) = run(|c| grade_submission(&teacher, id(SUBMISSION), c), &[T], Some(404));
    assert_eq!(end, Step::NotFound);
    assert_eq!(fetched.len(), 3);
    assert_eq!(end.outcome(), Some(Err(Error::Integrity(IntegrityError::NotFound))));
    let (end, _) = run(|c| create_assessment(&teacher, &new_assessment(404), c), &[T], None);
    assert_eq!(end, Step::NotFound);
}

#[test]
fn student_hands_in_for_self_when_enrolled() {
    let student = Context::new(id(S), Role::Student);
    let (end, fetched) = run(
        |c| create_submission(&student, &new_submission(S, ASSESSMENT), c),
        &[T, S],
        Some(SUBJECT_X),
    );
    assert_eq!(end, Step::Allow);
    assert_eq!(fetched, vec![Lookup::Assessment(id(ASSESSMENT)), Lookup::Subject(id(SUBJECT_X))]);
    let (end, fetched) =
        run(|c| create_submission(&student, &new_submission(S, ASSESSMENT), c), &[T], Some(SUBJECT_X));
    assert_eq!(end, Step::Forbidden(DenyReason::NotMember));
    assert_eq!(fetched.len(), 2);
}

#[test]
fn student_cannot_hand_in_for_another() {
    let student = Context::new(id(S), Role::Student);
    let (end, fetched) = run(
        |c| create_submission(&student, &new_submission(5, ASSESSMENT), c),
        &[S, 5],
        Some(SUBJECT_X),
    );
    assert_eq!(end, Step::Forbidden(DenyReason::NotOwner));
    assert_eq!(fetched, vec![]);
}

#[test]
fn student_reads_and_changes_own_submission_only() {
    let owner = Context::new(id(S), Role::Student);
    let other = Context::new(id(5), Role::Student);
    for ask in [get_submission, update_submission] {
        let (end, fetched) = run(|c| ask(&owner, id(SUBMISSION), c), &[], None);
        assert_eq!(end, Step::Allow);
        assert_eq!(fetched, vec![Lookup::Submission(id(SUBMISSION))]);
        let (end, _) = run(|c| ask(&other, id(SUBMISSION), c), &[5], Some(SUBJECT_X));
        assert_eq!(end, Step::Forbidden(DenyReason::NotOwner));
        let (end, _) = run(|c| ask(&owner, id(404), c), &[S], Some(SUBJECT_X));
        assert_eq!(end, Step::NotFound);
    }
}

#[test]
fn teacher_reads_submissions_of_own_subject() {
    let teacher = Context::new(id(T), Role::Teacher);
    let (end, _) = run(|c| get_submission(&teacher, id(SUBMISSION), c), &[T], Some(SUBJECT_X));
    assert_eq!(end, Step::Allow);
    let (end, _) = run(|c| get_submission(&teacher, id(SUBMISSION), c), &[S], Some(SUBJECT_X));
    assert_eq!(end, Step::Forbidden(DenyReason::NotMember));
    let (end, fetched) =
        run(|c| assessment_submissions(&teacher, id(ASSESSMENT), c), &[T], Some(SUBJECT_X));
    assert_eq!(end, Step::Allow);
    assert_eq!(fetched, vec![Lookup::Assessment(id(ASSESSMENT)), Lookup::Subject(id(SUBJECT_X))]);
}

#[test]
fn teacher_manages_assessments_of_own_subject() {
    let teacher = Context::new(id(T), Role::Teacher);
    let (end, fetched) = run(|c| create_assessment(&teacher, &new_assessment(SUBJECT_X), c), &[T], None);
    assert_eq!(end, Step::Allow);
    assert_eq!(fetched, vec![Lookup::Subject(id(SUBJECT_X))]);
    let (end, _) = run(|c| create_assessment(&teacher, &new_assessment(SUBJECT_Z), c), &[T], None);
    assert_eq!(end, Step::Forbidden(DenyReason::NotMember));
    for ask in [update_assessment, delete_assessment, get_assessments] {
        let (end, _) = run(|c| ask(&teacher, id(ASSESSMENT), c), &[T], Some(SUBJECT_X));
        assert_eq!(end, Step::Allow);
        let (end, _) = run(|c| ask(&teacher, id(ASSESSMENT), c), &[S], Some(SUBJECT_X));
        assert_eq!(end, Step::Forbidden(DenyReason::NotMember));
    }
}

#[test]
fn members_list_the_assessments_of_their_subject() {
    for role in [Role::Student, Role::Teacher] {
        let member = Context::new(id(S), role);
        let (end, fetched) = run(|c| subject_assessments(&member, id(SUBJECT_X), c), &[S], None);
        assert_eq!(end, Step::Allow);
        assert_eq!(fetched, vec![Lookup::Subject(id(SUBJECT_X))]);
        let (end, _) = run(|c| subject_assessments(&member, id(SUBJECT_Z), c), &[S], None);
        assert_eq!(end, Step::Forbidden(DenyReason::NotMember));
        let (end, _) = run(|c| subject_assessments(&member, id(404), c), &[S], None);
        assert_eq!(end, Step::NotFound);
    }
}

#[test]
fn request_about_no_record_has_no_members() {
    let teacher = Context::new(id(T), Role::Teacher);
    let chain = Chain::new();
    assert_eq!(
        next_step(&teacher, ResourceKind::Assessment, Action::Read, Entry::Nothing, &chain),
        Step::Forbidden(DenyReason::NotMember)
    );
    let student = Context::new(id(S), Role::Student);
    assert_eq!(
        next_step(&student, ResourceKind::Submission, Action::Read, Entry::Subject(id(1)), &chain),
        Step::Forbidden(DenyReason::NotOwner)
    );
}

#[test]
fn step_outcomes() {
    assert_eq!(Step::Fetch(Lookup::Subject(id(1))).outcome(), None);
    assert_eq!(Step::Allow.outcome(), Some(Ok(())));
    assert_eq!(
        Step::Forbidden(DenyReason::Role).outcome(),
        Some(Err(Error::Auth(AuthError::Forbidden)))
    );
    assert_eq!(Step::NotFound.outcome(), Some(Err(Error::Integrity(IntegrityError::NotFound))));
}
