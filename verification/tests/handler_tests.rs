use campus_auth::ctx::Context;
use campus_auth::error::{AuthError, Error};
use campus_auth::oid::ObjectId;
use campus_auth::policy::Filter;
use campus_auth::schema::{Role, Semester, Subject, User};
use campus_auth::web::assessment::list_assessments;
use campus_auth::web::student::{
    create_student, delete_student, list_students, update_student, StudentForCU,
};
use campus_auth::web::subject::{
    create_subject, delete_subject, drop_subject, join_subject, list_subjects, update_subject,
    SubjectForCU,
};
use campus_auth::web::submission::{delete_submission, list_submissions};
use campus_auth::web::teacher::{
    create_teacher, delete_teacher, list_teachers, update_teacher, TeacherForCU,
};
use campus_auth::web::Status;

fn id(n: u64) -> ObjectId {
    ObjectId { timestamp: 7, tail: n }
}

fn forbidden<T>() -> Result<T, Error> {
    Err(Error::Auth(AuthError::Forbidden))
}

fn contexts() -> (Context, Context, Context) {
    (
        Context::new(id(1), Role::Student),
        Context::new(id(2), Role::Teacher),
        Context::new(id(3), Role::Admin),
    )
}

#[test]
fn only_admin_creates_accounts() {
    let (student, teacher, admin) = contexts();
    let s = StudentForCU {
        name: "Asha".to_string(),
        email: "asha@icp.edu.np".to_string(),
        campus_id: "ICP07".to_string(),
    };
    let t = TeacherForCU { name: "Bina".to_string(), email: "bina@icp.edu.np".to_string() };
    assert_eq!(create_student(&student, &s), forbidden());
    assert_eq!(create_student(&teacher, &s), forbidden());
    assert_eq!(create_teacher(&student, &t), forbidden());
    assert_eq!(create_teacher(&teacher, &t), forbidden());
    let made = create_student(&admin, &s).unwrap();
    assert_eq!(
        made,
        User {
            id: None,
            campus_id: Some("ICP07".to_string()),
            name: "Asha".to_string(),
            email: "asha@icp.edu.np".to_string(),
            role: Role::Student,
            courses: vec![],
        }
    );
    let made = create_teacher(&admin, &t).unwrap();
    assert_eq!(
        made,
        User {
            id: None,
            campus_id: None,
            name: "Bina".to_string(),
            email: "bina@icp.edu.np".to_string(),
            role: Role::Teacher,
            courses: vec![],
        }
    );
}

#[test]
fn only_admin_changes_deletes_and_lists_accounts() {
    let (student, teacher, admin) = contexts();
    for context in [&student, &teacher] {
        assert_eq!(update_student(context), forbidden());
        assert_eq!(delete_student(context), forbidden());
        assert_eq!(list_students(context), forbidden());
        assert_eq!(update_teacher(context), forbidden());
        assert_eq!(delete_teacher(context), forbidden());
        assert_eq!(list_teachers(context), forbidden());
    }
    assert_eq!(update_student(&admin), Ok(()));
    assert_eq!(delete_student(&admin), Ok(()));
    assert_eq!(list_students(&admin), Ok(Filter::All));
    assert_eq!(update_teacher(&admin), Ok(()));
    assert_eq!(delete_teacher(&admin), Ok(()));
    assert_eq!(list_teachers(&admin), Ok(Filter::All));
}

#[test]
fn only_admin_creates_changes_and_deletes_subjects() {
    let (student, teacher, admin) = contexts();
    let body = SubjectForCU { name: "L1C1".to_string(), year: 2030, semester: Semester::Fall };
    for context in [&student, &teacher] {
        assert_eq!(create_subject(context, &body), forbidden());
        assert_eq!(update_subject(context), forbidden());
        assert_eq!(delete_subject(context), forbidden());
    }
    assert_eq!(
        create_subject(&admin, &body),
        Ok(Subject {
            id: None,
            name: "L1C1".to_string(),
            year: 2030,
            semester: Semester::Fall,
            members: vec![],
        })
    );
    assert_eq!(update_subject(&admin), Ok(()));
    assert_eq!(delete_subject(&admin), Ok(()));
}

#[test]
fn subjects_are_listed_for_members_and_all_for_admin() {
    let (student, teacher, admin) = contexts();
    assert_eq!(list_subjects(&student), Ok(Filter::MemberOf(id(1))));
    assert_eq!(list_subjects(&teacher), Ok(Filter::MemberOf(id(2))));
    assert_eq!(list_subjects(&admin), Ok(Filter::All));
}

#[test]
fn assessments_and_submissions_listed() {
    let (student, teacher, admin) = contexts();
    assert_eq!(list_assessments(&student), Ok(Filter::MemberOf(id(1))));
    assert_eq!(list_assessments(&teacher), Ok(Filter::MemberOf(id(2))));
    assert_eq!(list_assessments(&admin), Ok(Filter::All));
    assert_eq!(list_submissions(&student), forbidden());
    assert_eq!(list_submissions(&teacher), Ok(Filter::MemberOf(id(2))));
    assert_eq!(list_submissions(&admin), Ok(Filter::All));
}

#[test]
fn only_admin_deletes_submissions() {
    let (student, teacher, admin) = contexts();
    assert_eq!(delete_submission(&student), forbidden());
    assert_eq!(delete_submission(&teacher), forbidden());
    assert_eq!(delete_submission(&admin), Ok(()));
}

#[test]
fn admin_enrolls_and_drops_members() {
    let (_, _, admin) = contexts();
    let mut subject = Subject::new(&"L1C1".to_string(), 2030, Semester::Spring);
    let mut user = User::new_student(&"a".to_string(), &"a@b".to_string(), &"c".to_string());
    assert_eq!(join_subject(&admin, id(10), &mut subject, id(1), &mut user), Ok(()));
    assert_eq!(subject.members, vec![id(1)]);
    assert_eq!(user.courses, vec![id(10)]);
    assert_eq!(join_subject(&admin, id(10), &mut subject, id(1), &mut user), Ok(()));
    assert_eq!(subject.members, vec![id(1)]);
    assert_eq!(user.courses, vec![id(10)]);
    let mut other = User::new_teacher(&"t".to_string(), &"t@b".to_string());
    assert_eq!(join_subject(&admin, id(10), &mut subject, id(2), &mut other), Ok(()));
    assert_eq!(subject.members, vec![id(1), id(2)]);
    assert_eq!(drop_subject(&admin, id(10), &mut subject, id(1), &mut user), Ok(()));
    assert_eq!(subject.members, vec![id(2)]);
    assert_eq!(user.courses, vec![]);
    assert_eq!(drop_subject(&admin, id(10), &mut subject, id(1), &mut user), Ok(()));
    assert_eq!(subject.members, vec![id(2)]);
    assert_eq!(
        subject,
        Subject {
            id: None,
            name: "L1C1".to_string(),
            year: 2030,
            semester: Semester::Spring,
            members: vec![id(2)],
        }
    );
    assert_eq!(user, User::new_student(&"a".to_string(), &"a@b".to_string(), &"c".to_string()));
    assert_eq!(other.role, Role::Teacher);
    assert_eq!(other.courses, vec![id(10)]);
}

#[test]
fn others_cannot_enroll_or_drop_and_change_nothing() {
    let (student, teacher, _) = contexts();
    let mut subject = Subject::new(&"L1C1".to_string(), 2030, Semester::Summer);
    subject.add_member(id(5));
    let mut user = User::new_student(&"a".to_string(), &"a@b".to_string(), &"c".to_string());
    user.add_course(id(10));
    let (subject_before, user_before) = (subject.clone(), user.clone());
    for context in [&student, &teacher] {
        assert_eq!(join_subject(context, id(11), &mut subject, id(1), &mut user), forbidden());
        assert_eq!(drop_subject(context, id(10), &mut subject, id(5), &mut user), forbidden());
        assert_eq!(subject.members, vec![id(5)]);
        assert_eq!(user.courses, vec![id(10)]);
        assert_eq!(subject, subject_before);
        assert_eq!(user, user_before);
    }
}

#[test]
fn status_has_two_values() {
    assert_ne!(Status::Success, Status::Failure);
}
