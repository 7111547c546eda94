use thearning::announcements::models::{Announcement, FillableAnnouncement};
use thearning::announcements::routes::{
    delete_announcement, draft_announcement, get_announcement, get_announcements, update_announcement,
};
use thearning::assignments::models::{Assignment, AssignmentData, FillableAssignments};
use thearning::assignments::routes::{
    all_teachers_assigment, can_delete, delete_assignment, draft, draft_with, students_assignment,
    teachers_assignment, teachers_submission, update_assignment, update_assignment_with,
};
use thearning::attachments::models::{Attachment, FillableAttachment};
use thearning::attachments::routes::delete_attachment;
use thearning::auth::{ApiKey, ClassGuard};
use thearning::clock::{Date, DateTime, Time};
use thearning::comments::models::{Comment, FillableComment, FillablePrivateComment, PrivateComment};
use thearning::comments::routes::{delete_comment, delete_private_comment, post_comment, post_private_comment};
use thearning::db::DbConn;
use thearning::errors::Status;
use thearning::files::models::{FileType, UploadType, UploadedFile};
use thearning::files::routes::{process_attachment_with, process_image_with, upload_file, AttachmentData, Site};
use thearning::links::models::Link;
use thearning::links::routes::handle_link;
use thearning::submissions::models::{FillableMark, Mark, Submissions};
use thearning::submissions::routes::{
    mark_submission, mark_submission_with, submit_submission, unsubmit_submission, update_mark,
};
use thearning::users::models::{Membership, Role, User};
use thearning::utils::{get_attachments, get_comments};

fn at(day: u32, hour: u32) -> DateTime {
    DateTime::new(Date::from_ymd_opt(2024, 1, day).unwrap(), Time::from_hms_opt(hour, 0, 0).unwrap())
}

fn site() -> Site {
    Site { url: "localhost:8000".to_string(), dir: "/srv/thearning".to_string() }
}

fn user(id: &str, status: &str) -> User {
    User {
        user_id: id.to_string(),
        fullname: format!("User {}", id),
        profile_photo: "".to_string(),
        email: format!("{}@mail.com", id),
        password: "hash".to_string(),
        birth_place: "".to_string(),
        birth_date: Date::from_ymd_opt(2000, 1, 1).unwrap(),
        bio: "".to_string(),
        status: status.to_string(),
        created_at: at(1, 0),
    }
}

/// A classroom `c` with the students 123 and 124, the teachers 234 and
/// 235, the admin 1, and an empty draft `a1`.
fn school() -> DbConn {
    let mut conn = DbConn::new();
    let mut n = 0;
    for (id, status, role) in [
        ("123", "student", Role::Student),
        ("124", "student", Role::Student),
        ("234", "teacher", Role::Teacher),
        ("235", "teacher", Role::Teacher),
        ("1", "admin", Role::Admin),
    ] {
        conn.users.insert(user(id, status)).unwrap();
        n += 1;
        Membership::create_with(&id.to_string(), &"c".to_string(), role, n, at(1, 0), &mut conn).unwrap();
    }
    assert_eq!(draft_with(&guard("234"), &"c".to_string(), "a1".to_string(), at(1, 8), &mut conn).unwrap(), "a1");
    conn
}

fn guard(id: &str) -> ClassGuard {
    ClassGuard(id.to_string())
}

fn class() -> String {
    "c".to_string()
}

fn publish(conn: &mut DbConn, due_date: Option<Date>) -> Assignment {
    let data = AssignmentData {
        id: "a1".to_string(),
        assignment: FillableAssignments {
            assignment_name: Some("Essay".to_string()),
            class_id: Some("c".to_string()),
            topic_id: None,
            due_date,
            due_time: None,
            instructions: Some("Write it".to_string()),
            creator: None,
        },
    };
    update_assignment(&guard("234"), &class(), data, at(2, 8), conn).unwrap().new_assignment
}

fn submission_of(conn: &DbConn, user: &str) -> Submissions {
    Submissions::get_by_id(&"a1".to_string(), &user.to_string(), conn).unwrap()
}

#[test]
fn publishing_creates_a_submission_for_every_student_and_a_notice() {
    let mut conn = school();
    let data = AssignmentData {
        id: "a1".to_string(),
        assignment: FillableAssignments {
            assignment_name: Some("Essay".to_string()),
            class_id: Some("c".to_string()),
            topic_id: None,
            due_date: Date::from_ymd_opt(2024, 1, 10),
            due_time: None,
            instructions: Some("Write it".to_string()),
            creator: None,
        },
    };
    let published = update_assignment(&guard("234"), &class(), data, at(2, 8), &mut conn).unwrap();
    assert!(!published.new_assignment.draft);
    assert_eq!(published.new_assignment.creator, Some("234".to_string()));
    assert_eq!(published.mail.recipients, vec!["123@mail.com".to_string(), "124@mail.com".to_string()]);
    assert_eq!(published.mail.subject, "New Assignment");
    assert!(published.mail.html.starts_with("<!DOCTYPE html>\n<html lang=\"en\">"));
    assert!(published.mail.html.contains("<title>New Assignment!</title>"));
    assert!(published.mail.html.contains(">New Assignment from User 234: Essay</h2>"));
    assert!(published.mail.html.contains("sans-serif;\">Write it</h4>"));
    assert!(published.mail.html.ends_with("</body>\n</html>"));
    assert_eq!(conn.submissions.len(), 2);
    let s = submission_of(&conn, "123");
    assert!(!s.submitted);
    // The submissions are seeded before the draft is filled in, while it
    // has no deadline yet.
    assert_eq!(s.on_time, None);
    assert_eq!(s.marks_allotted, None);
    assert_eq!(s.created_at, at(2, 8));
}

#[test]
fn publishing_twice_cannot_create_the_submissions_again() {
    let mut conn = school();
    publish(&mut conn, None);
    let data = AssignmentData {
        id: "a1".to_string(),
        assignment: FillableAssignments {
            assignment_name: None,
            class_id: Some("c".to_string()),
            topic_id: None,
            due_date: None,
            due_time: None,
            instructions: None,
            creator: None,
        },
    };
    let r = update_assignment(&guard("234"), &class(), data, at(2, 9), &mut conn);
    assert_eq!(r.unwrap_err(), Status::InternalServerError);
    assert_eq!(conn.submissions.len(), 2);
    let unknown = AssignmentData {
        id: "zz".to_string(),
        assignment: FillableAssignments {
            assignment_name: None,
            class_id: None,
            topic_id: None,
            due_date: None,
            due_time: None,
            instructions: None,
            creator: None,
        },
    };
    assert_eq!(update_assignment(&guard("234"), &class(), unknown, at(2, 9), &mut conn).unwrap_err(), Status::NotFound);
}

#[test]
fn publishing_with_given_keys() {
    let mut conn = school();
    let data = |due_date| AssignmentData {
        id: "a1".to_string(),
        assignment: FillableAssignments {
            assignment_name: Some("Essay".to_string()),
            class_id: Some("c".to_string()),
            topic_id: None,
            due_date,
            due_time: None,
            instructions: None,
            creator: None,
        },
    };
    // The memberships stand in the order 123, 124, 234, 235, 1: the first
    // two are the students'. The second key is in use.
    Submissions::create_with(
        thearning::submissions::models::FillableSubmissions { assignment_id: "a1".to_string(), user_id: "x".to_string() },
        "k2".to_string(),
        at(1, 9),
        &mut conn,
    )
    .unwrap();
    let ids = vec!["k1".to_string(), "k2".to_string(), "k3".to_string(), "k4".to_string(), "k5".to_string()];
    let r = update_assignment_with(&guard("234"), &class(), data(None), &ids, at(2, 8), &mut conn);
    assert_eq!(r.unwrap_err(), Status::InternalServerError);
    // The going stopped at the second student; the first has a submission.
    assert_eq!(conn.submissions.len(), 2);
    assert_eq!(conn.submissions.get(1).submission_id, "k1");
    assert_eq!(conn.submissions.get(1).user_id, "123");
    assert!(Assignment::get_by_id(&"a1".to_string(), &conn).unwrap().draft);
    // Publishing to a classroom without students succeeds.
    let published = update_assignment_with(&guard("234"), &"empty".to_string(), data(None), &ids, at(2, 8), &mut conn).unwrap();
    assert!(!published.new_assignment.draft);
    assert!(published.mail.recipients.is_empty());
    assert_eq!(conn.submissions.len(), 2);
    let empty: Vec<String> = Vec::new();
    assert!(Submissions::seed_for_assignment_with(&"a1".to_string(), &"empty".to_string(), &empty, at(2, 8), &mut conn).is_ok());
    assert!(Submissions::seed_for_assignment(&"nope".to_string(), &"empty".to_string(), at(2, 8), &mut conn).is_ok());
    let r = Submissions::seed_for_assignment(&"nope".to_string(), &class(), at(2, 8), &mut conn);
    assert!(matches!(r, Err(thearning::errors::ErrorKind::QueryError(thearning::db::QueryError::NotFound))));
    let r = Submissions::seed_for_assignment_with(&"a1".to_string(), &class(), &ids, at(2, 8), &mut conn);
    assert!(matches!(r, Err(thearning::errors::ErrorKind::QueryError(thearning::db::QueryError::UniqueViolation))));
    assert_eq!(conn.submissions.len(), 2);
}

#[test]
fn a_status_that_names_no_role_gives_no_rights() {
    let mut conn = school();
    conn.users.insert(user("77", "janitor")).unwrap();
    Membership::create_with(&"77".to_string(), &"c".to_string(), Role::Teacher, 77, at(1, 0), &mut conn).unwrap();
    publish(&mut conn, None);
    let id = submission_of(&conn, "123").submission_id;
    let odd = guard("77");
    assert_eq!(mark_submission(&odd, &class(), value(90), &id, at(3, 8), &mut conn).unwrap_err(), Status::Forbidden);
    assert_eq!(update_mark(&odd, &class(), value(90), &id, &mut conn).unwrap_err(), Status::Forbidden);
    assert_eq!(submission_of(&conn, "123").marks_allotted, None);
    let r = teachers_assignment(&odd, &class(), &"a1".to_string(), at(3, 8), &mut conn);
    assert_eq!(r.unwrap_err(), Status::Forbidden);
    let r = teachers_submission(&odd, &class(), &"a1".to_string(), &id, &conn);
    assert_eq!(r.unwrap_err(), Status::Forbidden);
    let r = all_teachers_assigment(&odd, &class(), &"234".to_string(), None, &conn);
    assert_eq!(r.unwrap_err(), Status::Forbidden);
    let r = delete_assignment(&odd, &class(), "a1".to_string(), &mut conn);
    assert_eq!(r.unwrap_err(), Status::Forbidden);
    let stored = Assignment::get_by_id(&"a1".to_string(), &conn).unwrap();
    assert!(!can_delete(&user("77", "janitor"), &stored));
    assert!(!user("77", "janitor").is_staff());
    assert_eq!(user("77", "janitor").role(), None);
    assert!(user("234", "teacher").is_staff());
    assert!(user("1", "admin").is_staff());
    assert!(!user("123", "student").is_staff());
    assert_eq!(user("123", "student").role(), Some(Role::Student));
}

#[test]
fn the_teachers_view_is_owed_unless_a_comment_is_orphaned() {
    let mut conn = school();
    publish(&mut conn, Date::from_ymd_opt(2024, 1, 10));
    let id = submission_of(&conn, "123").submission_id;
    submit_submission(&guard("123"), &class(), &id, at(9, 8), &mut conn).unwrap();
    let midnight = DateTime::new(Date::from_ymd_opt(2024, 1, 11).unwrap(), Time::from_hms_opt(0, 0, 0).unwrap());
    let view = teachers_assignment(&guard("234"), &class(), &"a1".to_string(), midnight, &mut conn).unwrap();
    let of = |user: &str| view.submissions.iter().find(|s| s.submission.user_id == user).unwrap();
    assert_eq!((of("123").submission.submitted, of("123").submission.on_time), (true, Some(true)));
    assert_eq!((of("124").submission.submitted, of("124").submission.on_time), (false, Some(false)));
    assert_eq!(submission_of(&conn, "124").on_time, Some(false));
    assert_eq!(submission_of(&conn, "123").on_time, Some(true));
    // A comment by a user who is gone: the sweep runs, the view is not found.
    let ghost = Comment {
        id: "c9".to_string(),
        user_id: "999".to_string(),
        assignment_id: Some("a1".to_string()),
        announcement_id: None,
        body: "x".to_string(),
        created_at: at(1, 1),
    };
    conn.comments.insert(ghost).unwrap();
    let r = teachers_assignment(&guard("234"), &class(), &"a1".to_string(), midnight, &mut conn);
    assert_eq!(r.unwrap_err(), Status::NotFound);
}

#[test]
fn a_draft_gets_a_numeric_id() {
    let mut conn = school();
    let id = draft(&guard("234"), &class(), at(1, 9), &mut conn).unwrap();
    assert!(id.chars().all(|c| c.is_ascii_digit()));
    let stored = Assignment::get_by_id(&id, &conn).unwrap();
    assert!(stored.draft);
    assert_eq!(stored.posted_date, Date::from_ymd_opt(2024, 1, 1).unwrap());
    assert_eq!(conn.assignments.len(), 2);
}

#[test]
fn submit_and_unsubmit_through_the_handlers() {
    let mut conn = school();
    publish(&mut conn, Date::from_ymd_opt(2024, 1, 10));
    let id = submission_of(&conn, "123").submission_id;
    let me = guard("123");
    assert_eq!(unsubmit_submission(&me, &class(), &id, at(3, 8), &mut conn).unwrap_err(), Status::BadRequest);
    assert_eq!(submit_submission(&me, &class(), &id, at(3, 8), &mut conn).unwrap(), Status::Success);
    let s = submission_of(&conn, "123");
    assert!(s.submitted);
    assert_eq!(s.on_time, Some(true));
    assert_eq!(s.submitted_date, Date::from_ymd_opt(2024, 1, 3));
    assert_eq!(submit_submission(&me, &class(), &id, at(3, 9), &mut conn).unwrap_err(), Status::BadRequest);
    assert_eq!(unsubmit_submission(&me, &class(), &id, at(11, 9), &mut conn).unwrap(), Status::Success);
    let s = submission_of(&conn, "123");
    assert!(!s.submitted);
    assert_eq!(s.on_time, Some(false));
}

#[test]
fn only_the_owner_submits() {
    let mut conn = school();
    publish(&mut conn, None);
    let id = submission_of(&conn, "123").submission_id;
    assert_eq!(submit_submission(&guard("124"), &class(), &id, at(3, 8), &mut conn).unwrap_err(), Status::Unauthorized);
    assert_eq!(submit_submission(&guard("999"), &class(), &id, at(3, 8), &mut conn).unwrap_err(), Status::NotFound);
    let r = submit_submission(&guard("123"), &class(), &"nope".to_string(), at(3, 8), &mut conn);
    assert_eq!(r.unwrap_err(), Status::NotFound);
    assert!(!submission_of(&conn, "123").submitted);
}

fn value(v: i32) -> FillableMark {
    FillableMark { submission_id: None, marker_id: None, student_id: None, value: v }
}

#[test]
fn grading_once_through_the_handlers() {
    let mut conn = school();
    publish(&mut conn, None);
    let id = submission_of(&conn, "123").submission_id;
    let r = mark_submission(&guard("123"), &class(), value(90), &id, at(3, 8), &mut conn);
    assert_eq!(r.unwrap_err(), Status::Forbidden);
    let mark = mark_submission(&guard("234"), &class(), value(90), &id, at(3, 8), &mut conn).unwrap();
    assert_eq!(mark.value, 90);
    assert_eq!(mark.marker_id, Some("234".to_string()));
    assert_eq!(mark.student_id, Some("123".to_string()));
    assert_eq!(submission_of(&conn, "123").marks_allotted, Some(90));
    let r = mark_submission(&guard("234"), &class(), value(95), &id, at(3, 9), &mut conn);
    assert_eq!(r.unwrap_err(), Status::Conflict);
    assert_eq!(submission_of(&conn, "123").marks_allotted, Some(90));
    assert_eq!(update_mark(&guard("123"), &class(), value(95), &id, &mut conn).unwrap_err(), Status::Forbidden);
    assert_eq!(update_mark(&guard("235"), &class(), value(95), &id, &mut conn).unwrap(), Status::Success);
    assert_eq!(submission_of(&conn, "123").marks_allotted, Some(95));
    let stored = Mark::get_by_submission_id(&id, &conn).unwrap();
    assert_eq!(stored.value, 95);
    assert_eq!(stored.marker_id, Some("235".to_string()));
    assert_eq!(Mark::get_by_id(&stored.id, &conn).unwrap().value, 95);
    let r = mark_submission(&guard("234"), &class(), value(1), &"nope".to_string(), at(3, 9), &mut conn);
    assert_eq!(r.unwrap_err(), Status::NotFound);
    assert_eq!(update_mark(&guard("234"), &class(), value(1), &"nope".to_string(), &mut conn).unwrap_err(), Status::NotFound);
}

#[test]
fn a_taken_mark_id_is_a_conflict() {
    let mut conn = school();
    publish(&mut conn, None);
    let a = submission_of(&conn, "123").submission_id;
    let b = submission_of(&conn, "124").submission_id;
    mark_submission_with(&guard("234"), &class(), value(1), &a, "m".to_string(), at(3, 8), &mut conn).unwrap();
    let r = mark_submission_with(&guard("234"), &class(), value(2), &b, "m".to_string(), at(3, 8), &mut conn);
    assert_eq!(r.unwrap_err(), Status::Conflict);
    assert_eq!(submission_of(&conn, "124").marks_allotted, None);
}

#[test]
fn the_teachers_view_sweeps_the_unsubmitted() {
    let mut conn = school();
    publish(&mut conn, Date::from_ymd_opt(2024, 1, 10));
    let id = submission_of(&conn, "123").submission_id;
    submit_submission(&guard("123"), &class(), &id, at(3, 8), &mut conn).unwrap();
    let r = teachers_assignment(&guard("123"), &class(), &"a1".to_string(), at(12, 8), &mut conn);
    assert_eq!(r.unwrap_err(), Status::Forbidden);
    assert_eq!(submission_of(&conn, "124").on_time, None);
    let view = teachers_assignment(&guard("234"), &class(), &"a1".to_string(), at(12, 8), &mut conn).unwrap();
    assert_eq!(view.assignment.assignment_id, "a1");
    assert_eq!(view.submissions.len(), 2);
    assert_eq!(view.submissions[0].user.as_ref().unwrap().user_id, "123");
    assert_eq!(view.submissions[0].attachment_amount, 0);
    assert_eq!(view.submissions[0].submission.on_time, Some(true));
    assert_eq!(view.submissions[1].submission.on_time, Some(false));
    assert!(!view.submissions[1].submission.submitted);
    assert_eq!(submission_of(&conn, "124").on_time, Some(false));
    assert_eq!(submission_of(&conn, "123").on_time, Some(true));
    let r = teachers_assignment(&guard("234"), &class(), &"zz".to_string(), at(12, 8), &mut conn);
    assert_eq!(r.unwrap_err(), Status::NotFound);
}

#[test]
fn the_students_view_shows_the_own_submission() {
    let mut conn = school();
    publish(&mut conn, None);
    let view = students_assignment(&guard("123"), &class(), &"a1".to_string(), &conn).unwrap();
    assert_eq!(view.submission.user_id, "123");
    assert_eq!(view.assignment.assignment_name, Some("Essay".to_string()));
    assert!(view.comments.is_empty());
    let r = students_assignment(&guard("234"), &class(), &"a1".to_string(), &conn);
    assert_eq!(r.unwrap_err(), Status::Forbidden);
    let r = students_assignment(&guard("123"), &class(), &"zz".to_string(), &conn);
    assert_eq!(r.unwrap_err(), Status::NotFound);
}

#[test]
fn a_teacher_sees_a_submission_with_its_student() {
    let mut conn = school();
    publish(&mut conn, None);
    let id = submission_of(&conn, "124").submission_id;
    let view = teachers_submission(&guard("234"), &class(), &"a1".to_string(), &id, &conn).unwrap();
    assert_eq!(view.student.user_id, "124");
    assert_eq!(view.submission.submission_id, id);
    let r = teachers_submission(&guard("123"), &class(), &"a1".to_string(), &id, &conn);
    assert_eq!(r.unwrap_err(), Status::Forbidden);
    let r = teachers_submission(&guard("234"), &class(), &"a1".to_string(), &"nope".to_string(), &conn);
    assert_eq!(r.unwrap_err(), Status::NotFound);
}

#[test]
fn assignments_by_creator_and_draft_flag() {
    let mut conn = school();
    publish(&mut conn, None);
    draft_with(&guard("234"), &class(), "a2".to_string(), at(1, 8), &mut conn).unwrap();
    let teacher = "234".to_string();
    let all = all_teachers_assigment(&guard("235"), &class(), &teacher, None, &conn).unwrap();
    assert_eq!(all.len(), 1);
    assert_eq!(all[0].assignment_id, "a1");
    assert_eq!(all_teachers_assigment(&guard("235"), &class(), &teacher, Some(true), &conn).unwrap().len(), 0);
    assert_eq!(all_teachers_assigment(&guard("235"), &class(), &teacher, Some(false), &conn).unwrap().len(), 1);
    let r = all_teachers_assigment(&guard("123"), &class(), &teacher, None, &conn);
    assert_eq!(r.unwrap_err(), Status::Forbidden);
}

#[test]
fn who_may_delete_an_assignment() {
    let mut conn = school();
    let draft = Assignment::get_by_id(&"a1".to_string(), &conn).unwrap();
    assert!(!can_delete(&user("123", "student"), &draft));
    assert!(can_delete(&user("235", "teacher"), &draft));
    let published = publish(&mut conn, None);
    assert!(can_delete(&user("234", "teacher"), &published));
    assert!(!can_delete(&user("235", "teacher"), &published));
    assert!(can_delete(&user("1", "admin"), &published));
    assert!(!can_delete(&user("123", "student"), &published));
}

fn attach_file(conn: &mut DbConn, attachment_id: &str, file_id: &str, assignment: &str) {
    let name = "notes".to_string();
    let file = process_attachment_with(&name, "pdf", FileType::PDF, file_id.to_string(), &site(), at(2, 8), conn).unwrap();
    let new_data = FillableAttachment {
        file_id: Some(file.file_id),
        link_id: None,
        assignment_id: Some(assignment.to_string()),
        announcement_id: None,
        submission_id: None,
        uploader: "234".to_string(),
    };
    Attachment::create_with(new_data, attachment_id.to_string(), at(2, 8), conn).unwrap();
}

#[test]
fn deleting_an_assignment_takes_its_attachments_along() {
    let mut conn = school();
    publish(&mut conn, None);
    attach_file(&mut conn, "t1", "f1", "a1");
    attach_file(&mut conn, "t2", "f2", "a1");
    attach_file(&mut conn, "t3", "f3", "other");
    let r = delete_assignment(&guard("235"), &class(), "a1".to_string(), &mut conn);
    assert_eq!(r.unwrap_err(), Status::Forbidden);
    let r = delete_assignment(&guard("123"), &class(), "a1".to_string(), &mut conn);
    assert_eq!(r.unwrap_err(), Status::Forbidden);
    assert_eq!(conn.attachments.len(), 3);
    let removal = delete_assignment(&guard("234"), &class(), "a1".to_string(), &mut conn).unwrap();
    assert_eq!(removal.status, Status::Success);
    assert_eq!(
        removal.file_paths,
        vec![
            "/srv/thearning/media/attachments/f1-notes.pdf".to_string(),
            "/srv/thearning/media/attachments/f2-notes.pdf".to_string(),
        ]
    );
    assert!(Assignment::get_by_id(&"a1".to_string(), &conn).is_err());
    assert_eq!(conn.attachments.len(), 1);
    assert_eq!(conn.files.len(), 1);
    let r = delete_assignment(&guard("234"), &class(), "a1".to_string(), &mut conn);
    assert_eq!(r.unwrap_err(), Status::NotFound);
}

#[test]
fn deleting_an_attachment_removes_its_file_row() {
    let mut conn = school();
    attach_file(&mut conn, "t1", "f1", "a1");
    let key = ApiKey("234".to_string());
    let removal = delete_attachment(&key, "t1".to_string(), &mut conn).unwrap();
    assert_eq!(removal.status, Status::Success);
    assert_eq!(removal.file_paths, vec!["/srv/thearning/media/attachments/f1-notes.pdf".to_string()]);
    assert_eq!(conn.attachments.len(), 0);
    assert_eq!(conn.files.len(), 0);
    assert_eq!(delete_attachment(&key, "t1".to_string(), &mut conn).unwrap_err(), Status::NotFound);
}

#[test]
fn an_attachment_whose_file_is_unknown_stays() {
    let mut conn = school();
    let new_data = FillableAttachment {
        file_id: Some("ghost".to_string()),
        link_id: None,
        assignment_id: None,
        announcement_id: None,
        submission_id: None,
        uploader: "234".to_string(),
    };
    let a = Attachment::create(new_data, &mut conn).unwrap();
    let removal = delete_attachment(&ApiKey("234".to_string()), a.attachment_id.clone(), &mut conn).unwrap();
    assert_eq!(removal.status, Status::Success);
    assert!(removal.file_paths.is_empty());
    assert_eq!(conn.attachments.len(), 1);
    assert!(a.delete(&mut conn).is_err());
    assert_eq!(Attachment::find(&a.attachment_id, &conn).unwrap().uploader, "234");
}

#[test]
fn uploads_are_recorded_with_path_and_address() {
    let mut conn = school();
    let name = "me.png".to_string();
    let upload = process_image_with(UploadType::ProfilePhoto, &name, "77".to_string(), &site(), at(2, 8), &mut conn).unwrap();
    assert_eq!(upload.path, "/srv/thearning/media/profiles/77-me.png");
    assert_eq!(upload.url, "http://localhost:8000/api/media/img/profiles/77-me.png");
    let upload = process_image_with(UploadType::ClassPicture, &name, "78".to_string(), &site(), at(2, 8), &mut conn).unwrap();
    assert_eq!(upload.path, "/srv/thearning/media/classes/78-me.png");
    assert_eq!(upload.url, "http://localhost:8000/api/media/img/classes/78-me.png");
    assert!(process_image_with(UploadType::ClassPicture, &name, "78".to_string(), &site(), at(2, 8), &mut conn).is_err());
    assert!(process_image_with(UploadType::AssignmentFile, &name, "79".to_string(), &site(), at(2, 8), &mut conn).is_err());
    assert_eq!(conn.files.len(), 2);
    let file = UploadedFile::receive(&"77".to_string(), &conn).unwrap();
    assert_eq!(file.filetype, "image");
    assert_eq!(UploadedFile::get_from_url(&upload.url, &conn).unwrap().file_id, "78");
    let doc = process_attachment_with(&"notes".to_string(), "docx", FileType::WordDocument, "80".to_string(), &site(), at(2, 8), &mut conn).unwrap();
    assert_eq!(doc.filename, "notes.docx");
    assert_eq!(doc.file_path, "/srv/thearning/media/attachments/80-notes.docx");
    assert_eq!(doc.file_url, "http://localhost:8000/api/media/attachments/80-notes.docx");
    assert_eq!(doc.filetype, "docx");
    assert!(UploadedFile::new(&"80".to_string(), &name, &name, &name, &name, &mut conn).is_err());
}

#[test]
fn upload_file_attaches_what_it_records() {
    let mut conn = school();
    let data = AttachmentData {
        content_type: Some("application/pdf".to_string()),
        filename: Some("notes".to_string()),
        assignment_id: Some("a1".to_string()),
        announcement_id: None,
        submission_id: None,
    };
    let uploaded = upload_file(&ApiKey("234".to_string()), data, &site(), at(2, 8), &mut conn).unwrap();
    assert_eq!(uploaded.file.filetype, "pdf");
    assert!(uploaded.file.file_path.ends_with("-notes.pdf"));
    assert_eq!(uploaded.attachment.file_id, Some(uploaded.file.file_id.clone()));
    assert_eq!(uploaded.attachment.assignment_id, Some("a1".to_string()));
    assert_eq!(uploaded.attachment.uploader, "234");
    assert_eq!(Attachment::load_by_assignment_id(&"a1".to_string(), &conn).unwrap().len(), 1);
    let shown = get_attachments(&Attachment::load_by_assignment_id(&"a1".to_string(), &conn).unwrap(), &conn);
    assert_eq!(shown[0].file.as_ref().unwrap().file_id, uploaded.file.file_id);
    assert!(shown[0].link.is_none());
    let bad = AttachmentData {
        content_type: Some("application/x-unknown".to_string()),
        filename: None,
        assignment_id: None,
        announcement_id: None,
        submission_id: None,
    };
    assert_eq!(upload_file(&ApiKey("234".to_string()), bad, &site(), at(2, 8), &mut conn).unwrap_err(), Status::BadRequest);
    let none = AttachmentData {
        content_type: None,
        filename: None,
        assignment_id: None,
        announcement_id: None,
        submission_id: None,
    };
    assert_eq!(upload_file(&ApiKey("234".to_string()), none, &site(), at(2, 8), &mut conn).unwrap_err(), Status::BadRequest);
    let pdf = AttachmentData {
        content_type: Some("application/pdf".to_string()),
        filename: None,
        assignment_id: None,
        announcement_id: None,
        submission_id: None,
    };
    assert_eq!(upload_file(&ApiKey("999".to_string()), pdf, &site(), at(2, 8), &mut conn).unwrap_err(), Status::Unauthorized);
}

#[test]
fn file_types_are_read_from_content_types() {
    let pairs = [
        ("video/mp4", FileType::MP4, "mp4", "mp4"),
        ("video/x-matroska", FileType::MKV, "mkv", "matroshka"),
        ("image/jpeg", FileType::JPEG, "jpeg", "jpeg"),
        ("image/png", FileType::PNG, "png", "png"),
        ("application/pdf", FileType::PDF, "pdf", "pdf"),
        ("text/plain", FileType::Text, "txt", "text"),
        ("application/vnd.rar", FileType::RAR, "rar", "rar"),
        ("application/zip", FileType::ZIP, "zip", "zip"),
        ("application/vnd.openxmlformats-officedocument.wordprocessingml.document", FileType::WordDocument, "docx", "docx"),
        ("application/vnd.openxmlformats-officedocument.spreadsheetml.sheet", FileType::ExcelDocument, "xlsx", "xlsx"),
    ];
    for (content_type, kind, ext, name) in pairs {
        assert_eq!(FileType::from_str(&content_type.to_string()).unwrap(), kind);
        assert_eq!(kind.ext(), ext);
        assert_eq!(kind.to_string(), name);
    }
    assert!(FileType::from_str(&"image/gif".to_string()).is_err());
}

#[test]
fn comments_are_posted_and_deleted_by_their_author() {
    let mut conn = school();
    let data = FillableComment {
        user_id: None,
        assignment_id: Some("a1".to_string()),
        announcement_id: None,
        body: "Hello".to_string(),
    };
    assert_eq!(post_comment(&guard("123"), &class(), data, at(2, 8), &mut conn).unwrap(), Status::Success);
    let comments = Comment::load_by_assignment(&"a1".to_string(), &conn).unwrap();
    assert_eq!(comments.len(), 1);
    assert_eq!(comments[0].user_id, "123");
    assert_eq!(comments[0].body, "Hello");
    assert_eq!(comments[0].created_at, at(2, 8));
    let shown = get_comments(&comments, &conn).unwrap();
    assert_eq!(shown[0].commenter.user_id, "123");
    assert_eq!(shown[0].comment.body, "Hello");
    let id = comments[0].id.clone();
    assert_eq!(Comment::find_comment(&id, &conn).unwrap().body, "Hello");
    assert_eq!(delete_comment(&guard("124"), &class(), id.clone(), &mut conn).unwrap_err(), Status::Unauthorized);
    assert_eq!(delete_comment(&guard("123"), &class(), id.clone(), &mut conn).unwrap(), Status::Success);
    assert_eq!(delete_comment(&guard("123"), &class(), id, &mut conn).unwrap_err(), Status::NotFound);
    let data = FillableComment { user_id: None, assignment_id: None, announcement_id: None, body: "x".to_string() };
    assert_eq!(post_comment(&guard("999"), &class(), data, at(2, 8), &mut conn).unwrap_err(), Status::NotFound);
    let anonymous = FillableComment { user_id: None, assignment_id: None, announcement_id: None, body: "x".to_string() };
    assert!(Comment::create(anonymous, &mut conn).is_err());
    let orphan = vec![Comment {
        id: "c".to_string(),
        user_id: "999".to_string(),
        assignment_id: None,
        announcement_id: None,
        body: "x".to_string(),
        created_at: at(1, 1),
    }];
    assert!(get_comments(&orphan, &conn).is_none());
}

#[test]
fn private_comments_are_posted_and_deleted_by_their_author() {
    let mut conn = school();
    publish(&mut conn, None);
    let sid = submission_of(&conn, "123").submission_id;
    let data = FillablePrivateComment { user_id: None, submission_id: Some(sid.clone()), body: "Psst".to_string() };
    assert_eq!(post_private_comment(&guard("234"), &class(), data, at(2, 8), &mut conn).unwrap(), Status::Success);
    let comments = PrivateComment::load_by_submission(&sid, &conn).unwrap();
    assert_eq!(comments.len(), 1);
    assert_eq!(comments[0].user_id, "234");
    let id = comments[0].id.clone();
    assert_eq!(PrivateComment::find_comment(&id, &conn).unwrap().body, "Psst");
    let view = students_assignment(&guard("123"), &class(), &"a1".to_string(), &conn).unwrap();
    assert_eq!(view.private_comments.len(), 1);
    assert_eq!(view.private_comments[0].commenter.user_id, "234");
    assert_eq!(delete_private_comment(&guard("123"), &class(), id.clone(), &mut conn).unwrap_err(), Status::Unauthorized);
    assert_eq!(delete_private_comment(&guard("234"), &class(), id.clone(), &mut conn).unwrap(), Status::Success);
    assert_eq!(delete_private_comment(&guard("234"), &class(), id, &mut conn).unwrap_err(), Status::NotFound);
}

#[test]
fn announcements_are_drafted_published_and_deleted() {
    let mut conn = school();
    let id = draft_announcement(&guard("234"), &class(), at(2, 8), &mut conn);
    assert!(id.chars().all(|c| c.is_ascii_digit()));
    assert!(Announcement::find_announcement(&conn, &id).unwrap().draft);
    assert!(get_announcements(&guard("123"), &class(), &conn).is_empty());
    let data = FillableAnnouncement {
        announcement_id: id.clone(),
        announcement_name: Some("Trip".to_string()),
        class_id: Some("c".to_string()),
        body: None,
    };
    let announced = update_announcement(&guard("234"), &class(), data, &mut conn).unwrap();
    assert!(!announced.announcement.draft);
    assert_eq!(announced.mail.subject, "New Announcement");
    assert_eq!(announced.mail.recipients.len(), 2);
    assert!(announced.mail.html.contains("<title>New Announcement!</title>"));
    assert!(announced.mail.html.contains(">New Announcement from User 234: Trip</h2>"));
    assert!(announced.mail.html.contains("sans-serif;\"> </h4>"));
    assert_eq!(get_announcements(&guard("123"), &class(), &conn).len(), 1);
    assert_eq!(Announcement::load_in_class(&conn, &class()).unwrap().len(), 1);
    let view = get_announcement(&guard("123"), &class(), &id, &conn).unwrap();
    assert_eq!(view.announcement.announcement_name, Some("Trip".to_string()));
    assert!(view.comments.is_empty());
    assert!(view.attachments.is_empty());
    assert_eq!(delete_announcement(&guard("234"), &class(), &id, &mut conn).unwrap(), id);
    assert_eq!(delete_announcement(&guard("234"), &class(), &id, &mut conn).unwrap_err(), Status::NotFound);
    assert_eq!(get_announcement(&guard("123"), &class(), &id, &conn).unwrap_err(), Status::NotFound);
    let data = FillableAnnouncement { announcement_id: id, announcement_name: None, class_id: None, body: None };
    assert_eq!(update_announcement(&guard("234"), &class(), data, &mut conn).unwrap_err(), Status::NotFound);
}

#[test]
fn a_link_is_attached_with_its_preview() {
    let mut conn = school();
    let page = "<html><head><title>Kanako Yasaka | Touhou Wiki | Fandom</title>\
                <meta name=\"description\" content=\"A goddess.\"></head><body></body></html>";
    let data = thearning::links::routes::AttachmentData {
        url: "https://touhou.fandom.com/wiki/Kanako_Yasaka".to_string(),
        assignment_id: Some("a1".to_string()),
        announcement_id: None,
        submission_id: None,
    };
    let linked = handle_link(&ApiKey("234".to_string()), data, page.to_string(), at(2, 8), &mut conn).unwrap();
    assert_eq!(linked.link.title, Some("Kanako Yasaka | Touhou Wiki | Fandom".to_string()));
    assert_eq!(linked.link.thumbnail, None);
    assert_eq!(linked.link.url, Some("https://touhou.fandom.com/wiki/Kanako_Yasaka".to_string()));
    assert_eq!(linked.attachment.link_id, Some(linked.link.id.clone()));
    assert_eq!(linked.attachment.uploader, "234");
    assert_eq!(Link::receive(&linked.link.id, &conn).unwrap().title, linked.link.title);
    let shown = get_attachments(&Attachment::load_by_assignment_id(&"a1".to_string(), &conn).unwrap(), &conn);
    assert_eq!(shown[0].link.as_ref().unwrap().id, linked.link.id);
    let removal = delete_attachment(&ApiKey("234".to_string()), linked.attachment.attachment_id, &mut conn).unwrap();
    assert!(removal.file_paths.is_empty());
    assert_eq!(conn.links.len(), 0);
    let data = thearning::links::routes::AttachmentData {
        url: "https://example.com".to_string(),
        assignment_id: None,
        announcement_id: None,
        submission_id: None,
    };
    let r = handle_link(&ApiKey("999".to_string()), data, page.to_string(), at(2, 8), &mut conn);
    assert_eq!(r.unwrap_err(), Status::NotFound);
}
