use thearning::assignments::models::{Assignment, AssignmentData, FillableAssignments};
use thearning::assignments::routes::{draft, update_assignment};
use thearning::auth::{ApiKey, ClassGuard};
use thearning::classes::models::{Classroom, NewClassroom, NewTopic, Topic};
use thearning::classes::routes::{
    class, classrooms, create_classroom, create_classroom_with, create_classuser, join, join_with, topic,
    update_class,
};
use thearning::classes::utils::{free_code, generate_class_code, get_class_codes, is_taken};
use thearning::clock::{Date, DateTime, Time};
use thearning::db::DbConn;
use thearning::errors::Status;
use thearning::files::routes::Site;
use thearning::submissions::models::{FillableSubmissions, Submissions};
use thearning::users::models::{InsertableUser, Role};
use thearning::users::routes::create;

fn now() -> DateTime {
    DateTime::new(Date::from_ymd_opt(2024, 1, 1).unwrap(), Time::from_hms_opt(8, 0, 0).unwrap())
}

fn site() -> Site {
    Site { url: "localhost:8000".to_string(), dir: "/srv/thearning".to_string() }
}

fn register(conn: &mut DbConn, user_id: &str, status: &str) {
    let form = InsertableUser {
        user_id: user_id.to_string(),
        fullname: format!("User {}", user_id),
        email: format!("{}@mail.com", user_id),
        password: "dummy".to_string(),
        birth_place: "".to_string(),
        birth_date: Date::from_ymd_opt(2000, 1, 1).unwrap(),
        bio: "".to_string(),
        status: status.to_string(),
        file_name: None,
    };
    create(form, false, &site(), now(), conn).unwrap();
}

fn school() -> DbConn {
    let mut conn = DbConn::new();
    register(&mut conn, "123", "student");
    register(&mut conn, "234", "teacher");
    register(&mut conn, "1", "admin");
    conn
}

fn form() -> NewClassroom {
    NewClassroom {
        class_name: "Test Class".to_string(),
        section: "Testing Class".to_string(),
        class_creator: None,
        class_description: Some("Just a Test Class".to_string()),
        file_name: None,
    }
}

fn found(conn: &mut DbConn) -> String {
    create_classroom(&ApiKey("234".to_string()), form(), false, &site(), now(), conn).unwrap().class_id
}

#[test]
fn t_4_create_classroom() {
    let mut conn = school();
    let r = create_classroom(&ApiKey("234".to_string()), form(), false, &site(), now(), &mut conn).unwrap();
    assert_eq!(!r.class_id.is_empty(), true);
}

#[test]
fn a_new_classroom_has_a_code_of_ten_letters_or_digits_and_its_founder() {
    let mut conn = school();
    let code = found(&mut conn);
    assert_eq!(code.len(), 10);
    assert!(code.chars().all(|c| c.is_ascii_alphanumeric()));
    let stored = Classroom::find(&code, &conn).unwrap();
    assert_eq!(stored.class_name, "Test Class");
    assert_eq!(stored.class_creator, Some("234".to_string()));
    assert_eq!(stored.class_image, Some("localhost:8000/api/media/img/placeholder.png".to_string()));
    assert_eq!(stored.created_at, now());
    assert!(Classroom::user_in_class(&code, &"234".to_string(), &conn));
    assert!(!Classroom::user_in_class(&code, &"123".to_string(), &conn));
    assert_eq!(conn.memberships.get(0).role, Role::Teacher);
    assert_eq!(Classroom::get_all(&conn).unwrap().len(), 1);
}

#[test]
fn students_and_strangers_found_no_classroom() {
    let mut conn = school();
    let r = create_classroom(&ApiKey("123".to_string()), form(), false, &site(), now(), &mut conn);
    assert_eq!(r.unwrap_err(), Status::Forbidden);
    let r = create_classroom(&ApiKey("999".to_string()), form(), false, &site(), now(), &mut conn);
    assert_eq!(r.unwrap_err(), Status::NotFound);
    assert_eq!(conn.classes.len(), 0);
}

#[test]
fn joining_twice_is_a_conflict_and_leaves_one_row() {
    let mut conn = school();
    let code = found(&mut conn);
    let student = ApiKey("123".to_string());
    assert_eq!(join(&student, code.clone(), now(), &mut conn).unwrap(), Status::Success);
    assert_eq!(join(&student, code.clone(), now(), &mut conn).unwrap_err(), Status::Conflict);
    let rows = conn.memberships.rows();
    let of_student = rows.iter().filter(|m| m.user_id == "123" && m.class_id == code).count();
    assert_eq!(of_student, 1);
    let teacher = ApiKey("234".to_string());
    assert_eq!(join(&teacher, code.clone(), now(), &mut conn).unwrap_err(), Status::Conflict);
    assert_eq!(conn.memberships.len(), 2);
}

#[test]
fn joining_an_unknown_classroom_is_not_found() {
    let mut conn = school();
    let r = join(&ApiKey("123".to_string()), "nowhere".to_string(), now(), &mut conn);
    assert_eq!(r.unwrap_err(), Status::NotFound);
    let code = found(&mut conn);
    let r = join(&ApiKey("999".to_string()), code, now(), &mut conn);
    assert_eq!(r.unwrap_err(), Status::BadRequest);
}

#[test]
fn a_student_who_joins_gets_a_submission_for_every_assignment() {
    let mut conn = school();
    let code = found(&mut conn);
    let other = found(&mut conn);
    for (id, class) in [("a1", &code), ("a2", &code), ("a3", &other)] {
        let mut a = Assignment::default_with(id.to_string(), now());
        a.class_id = Some(class.clone());
        a.due_date = Date::from_ymd_opt(2024, 1, 10);
        a.draft(&mut conn).unwrap();
    }
    assert_eq!(join(&ApiKey("123".to_string()), code.clone(), now(), &mut conn).unwrap(), Status::Success);
    assert_eq!(conn.submissions.len(), 2);
    let s = Submissions::get_by_id(&"a1".to_string(), &"123".to_string(), &conn).unwrap();
    assert!(!s.submitted);
    assert_eq!(s.marks_allotted, None);
    assert_eq!(s.on_time, Some(true));
    assert_eq!(s.created_at, now());
    assert!(Submissions::get_by_id(&"a2".to_string(), &"123".to_string(), &conn).is_ok());
    assert!(Submissions::get_by_id(&"a3".to_string(), &"123".to_string(), &conn).is_err());
    assert_eq!(join(&ApiKey("1".to_string()), code, now(), &mut conn).unwrap(), Status::Success);
    assert_eq!(conn.submissions.len(), 2);
}

#[test]
fn classrooms_lists_what_the_caller_joined() {
    let mut conn = school();
    let code = found(&mut conn);
    let _other = found(&mut conn);
    join(&ApiKey("123".to_string()), code.clone(), now(), &mut conn).unwrap();
    let of_student = classrooms(&ApiKey("123".to_string()), &conn).unwrap();
    assert_eq!(of_student.len(), 1);
    assert_eq!(of_student[0].class_id, code);
    assert_eq!(classrooms(&ApiKey("234".to_string()), &conn).unwrap().len(), 2);
    assert_eq!(classrooms(&ApiKey("1".to_string()), &conn).unwrap().len(), 0);
    assert_eq!(classrooms(&ApiKey("999".to_string()), &conn).unwrap_err(), Status::NotFound);
}

#[test]
fn a_classroom_shows_its_members_by_role() {
    let mut conn = school();
    let code = found(&mut conn);
    join(&ApiKey("123".to_string()), code.clone(), now(), &mut conn).unwrap();
    join(&ApiKey("1".to_string()), code.clone(), now(), &mut conn).unwrap();
    let view = class(&ClassGuard("123".to_string()), code.clone(), &conn).unwrap();
    assert_eq!(view.class.class_id, code);
    assert_eq!(view.students.len(), 1);
    assert_eq!(view.students[0].user_id, "123");
    assert_eq!(view.teachers.len(), 1);
    assert_eq!(view.teachers[0].user_id, "234");
    assert_eq!(view.admins.len(), 1);
    assert!(view.assignments.is_empty());
    assert!(view.announcements.is_empty());
    let r = class(&ClassGuard("123".to_string()), "nowhere".to_string(), &conn);
    assert_eq!(r.unwrap_err(), Status::NotFound);
}

#[test]
fn topics_are_filed_by_teachers_only() {
    let mut conn = school();
    let code = found(&mut conn);
    let new_topic = NewTopic { topic_name: "Algebra".to_string(), classroom_id: code.clone() };
    assert_eq!(topic(&ClassGuard("123".to_string()), new_topic, &mut conn).unwrap_err(), Status::Forbidden);
    let new_topic = NewTopic { topic_name: "Algebra".to_string(), classroom_id: code.clone() };
    assert_eq!(topic(&ClassGuard("234".to_string()), new_topic, &mut conn).unwrap(), Status::Success);
    assert_eq!(conn.topics.len(), 1);
    assert_eq!(conn.topics.get(0).topic_name, "Algebra");
    let by_hand = NewTopic { topic_name: "Sets".to_string(), classroom_id: code };
    let t = Topic::create_with(by_hand, "t1".to_string(), now(), &mut conn).unwrap();
    assert_eq!(t.id, "t1");
}

#[test]
fn only_an_admin_changes_a_classroom() {
    let mut conn = school();
    let code = found(&mut conn);
    let mut change = form();
    change.class_name = "Renamed".to_string();
    let r = update_class(&ApiKey("234".to_string()), code.clone(), change, false, &site(), now(), &mut conn);
    assert_eq!(r.unwrap_err(), Status::Forbidden);
    assert_eq!(Classroom::find(&code, &conn).unwrap().class_name, "Test Class");
    let mut change = form();
    change.class_name = "Renamed".to_string();
    let r = update_class(&ApiKey("1".to_string()), code.clone(), change, true, &site(), now(), &mut conn).unwrap();
    let upload = r.upload.unwrap();
    let stored = Classroom::find(&code, &conn).unwrap();
    assert_eq!(stored.class_name, "Renamed");
    assert_eq!(stored.class_creator, Some("1".to_string()));
    assert_eq!(stored.class_image, Some(upload.url.clone()));
    assert!(upload.path.starts_with("/srv/thearning/media/classes/"));
    let r = update_class(&ApiKey("1".to_string()), "nowhere".to_string(), form(), false, &site(), now(), &mut conn);
    assert_eq!(r.unwrap_err(), Status::NotFound);
}

#[test]
fn class_codes_are_drawn_until_one_is_free() {
    let mut conn = school();
    let code = found(&mut conn);
    let codes = get_class_codes(&conn).unwrap();
    assert_eq!(codes, vec![code.clone()]);
    assert!(is_taken(&codes, &code));
    assert!(!is_taken(&codes, &"abc".to_string()));
    assert_eq!(free_code(&codes, code.clone()), None);
    assert_eq!(free_code(&codes, "abcdefghij".to_string()), Some("abcdefghij".to_string()));
    let fresh = generate_class_code(&codes).unwrap();
    assert_eq!(fresh.chars().count(), 10);
    assert_ne!(fresh, code);
    assert_ne!(generate_class_code(&codes).unwrap(), fresh);
}

#[test]
fn t_6_create_assignment() {
    let mut conn = school();
    found(&mut conn);
    let teacher = ClassGuard("234".to_string());
    // The classrooms that the teacher attends, and a sample of them.
    let classrooms = classrooms(&ApiKey("234".to_string()), &conn).unwrap();
    let sample_class = classrooms.first().unwrap();
    let id = draft(&teacher, &sample_class.class_id, now(), &mut conn).unwrap();
    let data = AssignmentData {
        id,
        assignment: FillableAssignments {
            assignment_name: Some("Dummy Assignment".to_string()),
            class_id: Some(sample_class.class_id.clone()),
            topic_id: None,
            due_date: None,
            due_time: None,
            instructions: Some("Do this and that".to_string()),
            creator: None,
        },
    };
    let r_2 = update_assignment(&teacher, &sample_class.class_id, data, now(), &mut conn);
    let success = r_2.is_ok();
    assert_eq!(true, success);
    let stored = r_2.unwrap().new_assignment;
    assert_eq!(stored.assignment_name, Some("Dummy Assignment".to_string()));
    assert_eq!(stored.instructions, Some("Do this and that".to_string()));
    assert_eq!(stored.due_date, None);
    assert_eq!(stored.due_time, None);
    assert!(!stored.draft);
}

#[test]
fn founding_with_given_code_and_ids() {
    let mut conn = school();
    let teacher = ApiKey("234".to_string());
    let founded = create_classroom_with(
        &teacher, form(), true, "AAAAAAAAAA".to_string(), 7, "41".to_string(), &site(), now(), &mut conn,
    )
    .unwrap();
    assert_eq!(founded.class_id, "AAAAAAAAAA");
    let upload = founded.upload.unwrap();
    assert_eq!(upload.url, "http://localhost:8000/api/media/img/classes/41-filename.jpg");
    assert_eq!(upload.path, "/srv/thearning/media/classes/41-filename.jpg");
    let stored = Classroom::find(&"AAAAAAAAAA".to_string(), &conn).unwrap();
    assert_eq!(stored.class_image, Some(upload.url.clone()));
    assert_eq!(stored.class_creator, Some("234".to_string()));
    assert_eq!(conn.memberships.len(), 1);
    assert_eq!(conn.memberships.get(0).id, 7);
    assert_eq!(conn.memberships.get(0).role, Role::Teacher);
    assert_eq!(conn.files.get(0).file_id, "41");
    // A code that is taken is refused, and nothing changes.
    let r = create_classroom_with(
        &teacher, form(), false, "AAAAAAAAAA".to_string(), 8, "42".to_string(), &site(), now(), &mut conn,
    );
    assert_eq!(r.unwrap_err(), Status::BadRequest);
    assert_eq!((conn.classes.len(), conn.memberships.len(), conn.files.len()), (1, 1, 1));
    // A file id that is taken: the classroom is stored, without a picture.
    let r = create_classroom_with(
        &teacher, form(), true, "BBBBBBBBBB".to_string(), 8, "41".to_string(), &site(), now(), &mut conn,
    );
    assert_eq!(r.unwrap_err(), Status::BadRequest);
    assert_eq!(Classroom::find(&"BBBBBBBBBB".to_string(), &conn).unwrap().class_image, None);
    assert_eq!((conn.classes.len(), conn.memberships.len(), conn.files.len()), (2, 2, 1));
    // A row id that is taken: the classroom is founded, the founder is no member.
    let admin = ApiKey("1".to_string());
    let founded = create_classroom_with(
        &admin, form(), false, "CCCCCCCCCC".to_string(), 7, "43".to_string(), &site(), now(), &mut conn,
    )
    .unwrap();
    assert!(founded.upload.is_none());
    assert!(!Classroom::user_in_class(&"CCCCCCCCCC".to_string(), &"1".to_string(), &conn));
    assert_eq!(
        Classroom::find(&"CCCCCCCCCC".to_string(), &conn).unwrap().class_image,
        Some("localhost:8000/api/media/img/placeholder.png".to_string())
    );
    let r = create_classroom_with(
        &ApiKey("123".to_string()), form(), false, "DDDDDDDDDD".to_string(), 9, "44".to_string(), &site(), now(),
        &mut conn,
    );
    assert_eq!(r.unwrap_err(), Status::Forbidden);
    assert_eq!(conn.classes.len(), 3);
}

#[test]
fn joining_with_given_row_id_and_keys() {
    let mut conn = school();
    let code = found(&mut conn);
    for id in ["a1", "a2"] {
        let mut a = Assignment::default_with(id.to_string(), now());
        a.class_id = Some(code.clone());
        a.draft(&mut conn).unwrap();
    }
    let taken = conn.memberships.get(0).id;
    let student = ApiKey("123".to_string());
    let ids = vec!["k1".to_string(), "k2".to_string()];
    // The row id of the founder's membership is taken.
    assert_eq!(join_with(&student, code.clone(), taken, &ids, now(), &mut conn).unwrap_err(), Status::Conflict);
    assert_eq!((conn.memberships.len(), conn.submissions.len()), (1, 0));
    let fresh = if taken == 5 { 6 } else { 5 };
    assert_eq!(join_with(&student, code.clone(), fresh, &ids, now(), &mut conn).unwrap(), Status::Success);
    assert_eq!(conn.memberships.get(1).id, fresh);
    assert_eq!(conn.memberships.get(1).role, Role::Student);
    let rows = conn.submissions.rows();
    assert_eq!(rows.len(), 2);
    assert_eq!((rows[0].submission_id.as_str(), rows[0].assignment_id.as_str()), ("k1", "a1"));
    assert_eq!((rows[1].submission_id.as_str(), rows[1].assignment_id.as_str()), ("k2", "a2"));
    assert!(rows.iter().all(|s| s.user_id == "123" && !s.submitted && s.marks_allotted.is_none()));
    // A member cannot join again, under whatever row id.
    let r = join_with(&student, code.clone(), fresh + 1, &ids, now(), &mut conn);
    assert_eq!(r.unwrap_err(), Status::Conflict);
    let r = join_with(&student, "nowhere".to_string(), 99, &ids, now(), &mut conn);
    assert_eq!(r.unwrap_err(), Status::NotFound);
    let r = join_with(&ApiKey("999".to_string()), code, 99, &ids, now(), &mut conn);
    assert_eq!(r.unwrap_err(), Status::BadRequest);
    assert_eq!((conn.memberships.len(), conn.submissions.len()), (2, 2));
}

#[test]
fn a_code_is_owed_where_no_code_is_taken() {
    let none: Vec<String> = Vec::new();
    let code = generate_class_code(&none).unwrap();
    assert_eq!(code.chars().count(), 10);
    assert!(code.chars().all(|c| c.is_ascii_alphanumeric()));
    let odd = vec!["abc".to_string(), "not a code!".to_string(), "".to_string()];
    for _ in 0..20 {
        let code = generate_class_code(&odd).unwrap();
        assert_eq!(code.len(), 10);
        assert!(!is_taken(&odd, &code));
    }
}

#[test]
fn seeding_with_given_keys() {
    let mut conn = school();
    let code = found(&mut conn);
    let other = found(&mut conn);
    for (id, class) in [("a1", &code), ("a2", &code), ("a3", &other), ("a4", &code), ("a5", &code)] {
        let mut a = Assignment::default_with(id.to_string(), now());
        a.class_id = Some(class.clone());
        a.due_date = Date::from_ymd_opt(2024, 1, 10);
        a.draft(&mut conn).unwrap();
    }
    let student = "123".to_string();
    let old = FillableSubmissions { assignment_id: "a2".to_string(), user_id: student.clone() };
    Submissions::create_with(old, "old".to_string(), now(), &mut conn).unwrap();
    // One key for each of the first four assignments; none for the fifth.
    let ids = vec!["k1".to_string(), "k2".to_string(), "k3".to_string(), "old".to_string()];
    let later = DateTime::new(Date::from_ymd_opt(2024, 1, 11).unwrap(), Time::from_hms_opt(8, 0, 0).unwrap());
    Submissions::seed_for_student_with(&code, &student, &ids, later, &mut conn);
    let rows = conn.submissions.rows();
    assert_eq!(rows.len(), 2);
    // The row that was there stays in front, as it was.
    assert_eq!(rows[0].submission_id, "old");
    assert_eq!(rows[0].assignment_id, "a2");
    assert_eq!(rows[0].created_at, now());
    // The first assignment of the classroom gets its submission under its key.
    assert_eq!(rows[1].submission_id, "k1");
    assert_eq!(rows[1].assignment_id, "a1");
    assert_eq!(rows[1].user_id, "123");
    assert_eq!(rows[1].on_time, Some(false));
    assert_eq!(rows[1].created_at, later);
    assert!(!rows[1].submitted);
    assert_eq!(rows[1].marks_allotted, None);
    // Seeding again with fresh keys only fills what is missing.
    let ids = vec!["n1".to_string(), "n2".to_string(), "n3".to_string(), "n4".to_string(), "n5".to_string()];
    Submissions::seed_for_student_with(&code, &student, &ids, later, &mut conn);
    let rows = conn.submissions.rows();
    assert_eq!(rows.len(), 4);
    assert_eq!((rows[2].submission_id.as_str(), rows[2].assignment_id.as_str()), ("n4", "a4"));
    assert_eq!((rows[3].submission_id.as_str(), rows[3].assignment_id.as_str()), ("n5", "a5"));
    Submissions::seed_for_student(&code, &student, later, &mut conn);
    assert_eq!(conn.submissions.len(), 4);
    Submissions::seed_for_student(&other, &student, later, &mut conn);
    assert_eq!(conn.submissions.len(), 5);
    assert_eq!(conn.submissions.get(4).assignment_id, "a3");
}

#[test]
fn create_classuser_draws_a_row_id_that_is_not_negative() {
    let mut conn = school();
    let m = create_classuser(&"123".to_string(), &"c".to_string(), Role::Student, now(), &mut conn).unwrap();
    assert!(m.id >= 0);
    assert_eq!(m.created_at, now());
    assert!(create_classuser(&"123".to_string(), &"c".to_string(), Role::Student, now(), &mut conn).is_err());
}

#[test]
fn classrooms_are_updated_and_deleted_by_id() {
    let mut conn = DbConn::new();
    let row = Classroom {
        class_id: "c1".to_string(),
        class_name: "One".to_string(),
        class_creator: None,
        class_description: None,
        class_image: None,
        section: "A".to_string(),
        created_at: now(),
    };
    let later = DateTime::new(Date::from_ymd_opt(2024, 2, 2).unwrap(), Time::from_hms_opt(9, 0, 0).unwrap());
    let stored = Classroom::create_at(row.clone(), later, &mut conn).unwrap();
    assert_eq!(stored.created_at, later);
    assert!(Classroom::create(row.clone(), &mut conn).is_err());
    let mut update = row.clone();
    update.class_name = "Two".to_string();
    assert_eq!(row.update(update, &mut conn).unwrap().class_name, "Two");
    assert_eq!(row.delete(&mut conn).unwrap().class_name, "Two");
    assert_eq!(conn.classes.len(), 0);
    assert!(row.delete(&mut conn).is_err());
}
