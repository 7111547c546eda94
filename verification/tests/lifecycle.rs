use thearning::assignments::models::{on_time, Assignment, FillableAssignments};
use thearning::clock::{Date, DateTime, Time};
use thearning::db::{DbConn, QueryError};
use thearning::errors::{ErrorKind, StateError};
use thearning::submissions::models::{FillableSubmissions, Submissions};

fn date(year: i32, month: u32, day: u32) -> Date {
    Date::from_ymd_opt(year, month, day).unwrap()
}

fn time(hour: u32, minute: u32, second: u32) -> Time {
    Time::from_hms_opt(hour, minute, second).unwrap()
}

fn at(d: Date, t: Time) -> DateTime {
    DateTime::new(d, t)
}

fn assignment(id: &str, due_date: Option<Date>, due_time: Option<Time>) -> Assignment {
    let mut a = Assignment::default_with(id.to_string(), at(date(2024, 1, 1), time(8, 0, 0)));
    a.class_id = Some("class".to_string());
    a.due_date = due_date;
    a.due_time = due_time;
    a.draft = false;
    a
}

fn store_with(a: &Assignment) -> DbConn {
    let mut conn = DbConn::new();
    assert!(a.draft(&mut conn).is_ok());
    conn
}

fn submission_for(conn: &mut DbConn, a: &Assignment, user: &str, id: &str, now: DateTime) -> Submissions {
    let new_data = FillableSubmissions { assignment_id: a.assignment_id.clone(), user_id: user.to_string() };
    Submissions::create_with(new_data, id.to_string(), now, conn).unwrap()
}

#[test]
fn due_date_alone_means_the_last_second_of_that_day() {
    let a = assignment("1", Some(date(2024, 1, 10)), None);
    let due = a.due(date(2024, 1, 2)).unwrap();
    assert_eq!(due, at(date(2024, 1, 10), time(23, 59, 59)));
}

#[test]
fn due_time_alone_means_that_time_today() {
    let a = assignment("1", None, Some(time(18, 0, 0)));
    let today = date(2024, 3, 5);
    assert_eq!(a.due(today), Some(at(today, time(18, 0, 0))));
}

#[test]
fn due_date_and_time_are_combined() {
    let a = assignment("1", Some(date(2024, 1, 10)), Some(time(9, 30, 0)));
    assert_eq!(a.due(date(2030, 1, 1)), Some(at(date(2024, 1, 10), time(9, 30, 0))));
}

#[test]
fn no_deadline_means_no_punctuality() {
    let a = assignment("1", None, None);
    assert_eq!(a.due(date(2024, 1, 1)), None);
    assert_eq!(a.on_time_at(at(date(2024, 1, 1), time(0, 0, 0))), None);
    assert_eq!(a.on_time_at(at(date(2999, 12, 31), time(23, 59, 59))), None);
    assert_eq!(on_time(at(date(2024, 1, 1), time(0, 0, 0)), None), None);
}

#[test]
fn on_time_is_strictly_before_the_deadline() {
    let due = Some(at(date(2024, 1, 10), time(23, 59, 59)));
    assert_eq!(on_time(at(date(2024, 1, 10), time(23, 59, 58)), due), Some(true));
    assert_eq!(on_time(at(date(2024, 1, 10), time(23, 59, 59)), due), Some(false));
    assert_eq!(on_time(at(date(2024, 1, 11), time(0, 0, 0)), due), Some(false));
    assert_eq!(on_time(at(date(2023, 12, 31), time(23, 59, 59)), due), Some(true));
}

#[test]
fn on_time_gives_the_same_answer_twice() {
    let a = assignment("1", Some(date(2024, 1, 10)), Some(time(12, 0, 0)));
    let now = at(date(2024, 1, 10), time(11, 59, 59));
    assert_eq!(a.on_time_at(now), a.on_time_at(now));
    assert_eq!(a.on_time_at(now), Some(true));
}

#[test]
fn fractions_of_a_second_count() {
    let due = at(date(2024, 1, 10), time(12, 0, 0));
    let just_after = DateTime::new(date(2024, 1, 10), Time { hour: 12, minute: 0, second: 0, nano: 1 });
    assert!(due.is_before(&just_after));
    assert!(!just_after.is_before(&due));
    assert!(!due.is_before(&due));
}

#[test]
fn create_seeds_an_unsubmitted_ungraded_submission() {
    let a = assignment("7", Some(date(2024, 1, 10)), None);
    let mut conn = store_with(&a);
    let now = at(date(2024, 1, 9), time(10, 0, 0));
    let s = submission_for(&mut conn, &a, "123", "s1", now);
    assert_eq!(s.submission_id, "s1");
    assert_eq!(s.assignment_id, "7");
    assert_eq!(s.user_id, "123");
    assert!(!s.submitted);
    assert_eq!(s.marks_allotted, None);
    assert_eq!(s.on_time, Some(true));
    assert_eq!(s.created_at, now);
    assert_eq!(conn.submissions.len(), 1);
}

#[test]
fn create_fails_for_an_existing_pair() {
    let a = assignment("7", None, None);
    let mut conn = store_with(&a);
    let now = at(date(2024, 1, 9), time(10, 0, 0));
    submission_for(&mut conn, &a, "123", "s1", now);
    let again = FillableSubmissions { assignment_id: "7".to_string(), user_id: "123".to_string() };
    let r = Submissions::create_with(again, "s2".to_string(), now, &mut conn);
    assert!(matches!(r, Err(ErrorKind::QueryError(QueryError::UniqueViolation))));
    assert_eq!(conn.submissions.len(), 1);
}

#[test]
fn create_fails_for_an_unknown_assignment() {
    let mut conn = DbConn::new();
    let new_data = FillableSubmissions { assignment_id: "nope".to_string(), user_id: "123".to_string() };
    let r = Submissions::create_with(new_data, "s1".to_string(), at(date(2024, 1, 1), time(0, 0, 0)), &mut conn);
    assert!(matches!(r, Err(ErrorKind::QueryError(QueryError::NotFound))));
    assert_eq!(conn.submissions.len(), 0);
}

#[test]
fn create_with_the_wall_clock_draws_a_numeric_id() {
    let a = assignment("7", Some(date(9999, 1, 1)), None);
    let mut conn = store_with(&a);
    let new_data = FillableSubmissions { assignment_id: "7".to_string(), user_id: "123".to_string() };
    let s = Submissions::create(new_data, &mut conn).unwrap();
    assert!(s.submission_id.len() >= 2);
    assert!(s.submission_id.chars().all(|c| c.is_ascii_digit()));
    assert_eq!(s.on_time, Some(true));
    assert!(!s.submitted);
}

#[test]
fn submit_then_submit_again_then_unsubmit() {
    let a = assignment("7", Some(date(2024, 1, 10)), None);
    let mut conn = store_with(&a);
    let s = submission_for(&mut conn, &a, "123", "s1", at(date(2024, 1, 1), time(9, 0, 0)));
    assert!(!s.submitted);

    let now = at(date(2024, 1, 5), time(9, 0, 0));
    let submitted = s.submit_at(now, &mut conn).unwrap();
    assert!(submitted.submitted);
    assert_eq!(submitted.submitted_date, Some(date(2024, 1, 5)));
    assert_eq!(submitted.submitted_time, Some(time(9, 0, 0)));
    assert_eq!(submitted.on_time, Some(true));

    let again = s.submit_at(now, &mut conn);
    assert!(matches!(again, Err(ErrorKind::StateError(StateError::AlreadySubmitted))));
    assert!(Submissions::find_submission(&"s1".to_string(), &conn).unwrap().submitted);

    let withdrawn = s.unsubmit_at(at(date(2024, 1, 6), time(9, 0, 0)), &mut conn).unwrap();
    assert!(!withdrawn.submitted);
    assert!(!Submissions::find_submission(&"s1".to_string(), &conn).unwrap().submitted);

    let twice = s.unsubmit_at(now, &mut conn);
    assert!(matches!(twice, Err(ErrorKind::StateError(StateError::NotSubmitted))));
}

#[test]
fn a_late_submit_is_marked_late() {
    let a = assignment("7", Some(date(2024, 1, 10)), Some(time(12, 0, 0)));
    let mut conn = store_with(&a);
    let s = submission_for(&mut conn, &a, "123", "s1", at(date(2024, 1, 1), time(9, 0, 0)));
    let late = s.submit_at(at(date(2024, 1, 10), time(12, 0, 0)), &mut conn).unwrap();
    assert_eq!(late.on_time, Some(false));
}

#[test]
fn submit_of_an_unknown_submission_is_not_found() {
    let a = assignment("7", None, None);
    let mut conn = store_with(&a);
    let s = submission_for(&mut conn, &a, "123", "s1", at(date(2024, 1, 1), time(9, 0, 0)));
    let mut other = DbConn::new();
    let r = s.submit_at(at(date(2024, 1, 1), time(9, 0, 0)), &mut other);
    assert!(matches!(r, Err(ErrorKind::QueryError(QueryError::NotFound))));
}

#[test]
fn submit_with_the_wall_clock() {
    let a = assignment("7", Some(date(2000, 1, 1)), None);
    let mut conn = store_with(&a);
    let s = submission_for(&mut conn, &a, "123", "s1", at(date(1999, 1, 1), time(9, 0, 0)));
    let submitted = s.submit(&mut conn).unwrap();
    assert!(submitted.submitted);
    assert_eq!(submitted.on_time, Some(false));
    let withdrawn = s.unsubmit(&mut conn).unwrap();
    assert!(!withdrawn.submitted);
    assert_eq!(s.update_on_time(&a, &mut conn).unwrap().on_time, Some(false));
}

#[test]
fn the_pure_steps_of_the_state_machine() {
    let a = assignment("7", Some(date(2024, 1, 10)), None);
    let mut conn = store_with(&a);
    let s = submission_for(&mut conn, &a, "123", "s1", at(date(2024, 1, 1), time(9, 0, 0)));
    let now = at(date(2024, 1, 2), time(9, 0, 0));
    assert_eq!(s.unsubmitted_at(&a, now).unwrap_err(), StateError::NotSubmitted);
    let handed_in = s.submitted_at(&a, now).unwrap();
    assert!(handed_in.submitted);
    assert_eq!(handed_in.submitted_at(&a, now).unwrap_err(), StateError::AlreadySubmitted);
    assert!(!handed_in.unsubmitted_at(&a, now).unwrap().submitted);
    let graded = s.graded(90).unwrap();
    assert_eq!(graded.marks_allotted, Some(90));
    assert_eq!(graded.graded(95).unwrap_err(), StateError::AlreadyGraded);
    assert_eq!(graded.regraded(95).marks_allotted, Some(95));
}

#[test]
fn grade_once_then_update() {
    let a = assignment("7", None, None);
    let mut conn = store_with(&a);
    submission_for(&mut conn, &a, "123", "s1", at(date(2024, 1, 1), time(9, 0, 0)));
    let now = at(date(2024, 1, 2), time(9, 0, 0));
    let id = "s1".to_string();
    let teacher = "234".to_string();

    let mark = Submissions::grade_with(&id, &teacher, 90, "m1".to_string(), now, &mut conn).unwrap();
    assert_eq!(mark.value, 90);
    assert_eq!(mark.student_id, Some("123".to_string()));
    assert_eq!(mark.marker_id, Some("234".to_string()));
    assert_eq!(mark.submission_id, Some("s1".to_string()));
    assert_eq!(Submissions::find_submission(&id, &conn).unwrap().marks_allotted, Some(90));

    let second = Submissions::grade_with(&id, &teacher, 95, "m2".to_string(), now, &mut conn);
    assert!(matches!(second, Err(ErrorKind::StateError(StateError::AlreadyGraded))));
    assert_eq!(Submissions::find_submission(&id, &conn).unwrap().marks_allotted, Some(90));
    assert_eq!(conn.marks.len(), 1);

    let updated = Submissions::update_grade(&id, &teacher, 95, &mut conn).unwrap();
    assert_eq!(updated.marks_allotted, Some(95));
    assert_eq!(Submissions::find_submission(&id, &conn).unwrap().marks_allotted, Some(95));
    assert_eq!(conn.marks.get(0).value, 95);
    assert_eq!(conn.marks.len(), 1);
}

#[test]
fn grading_does_not_depend_on_being_submitted() {
    let a = assignment("7", None, None);
    let mut conn = store_with(&a);
    let s = submission_for(&mut conn, &a, "123", "s1", at(date(2024, 1, 1), time(9, 0, 0)));
    let graded = Submissions::grade(&s.submission_id, &"234".to_string(), 50, &mut conn).unwrap();
    assert_eq!(graded.value, 50);
    let row = Submissions::find_submission(&s.submission_id, &conn).unwrap();
    assert!(!row.submitted);
    assert_eq!(row.marks_allotted, Some(50));
}

#[test]
fn grade_of_an_unknown_submission_is_not_found() {
    let mut conn = DbConn::new();
    let now = at(date(2024, 1, 2), time(9, 0, 0));
    let r = Submissions::grade_with(&"s1".to_string(), &"234".to_string(), 1, "m1".to_string(), now, &mut conn);
    assert!(matches!(r, Err(ErrorKind::QueryError(QueryError::NotFound))));
    let r = Submissions::update_grade(&"s1".to_string(), &"234".to_string(), 1, &mut conn);
    assert!(matches!(r, Err(ErrorKind::QueryError(QueryError::NotFound))));
}

#[test]
fn end_to_end_submit_on_time_and_sweep_after_the_deadline() {
    let today = date(2024, 5, 20);
    let tomorrow = date(2024, 5, 21);
    let a = assignment("7", Some(tomorrow), None);
    let mut conn = store_with(&a);
    let morning = at(today, time(9, 0, 0));
    let of_a = submission_for(&mut conn, &a, "student-a", "sa", morning);
    submission_for(&mut conn, &a, "student-b", "sb", morning);

    let submitted = of_a.submit_at(at(today, time(15, 0, 0)), &mut conn).unwrap();
    assert_eq!(submitted.on_time, Some(true));

    let later = at(date(2024, 5, 22), time(0, 0, 1));
    Submissions::recompute_on_time_sweep(&a, later, &mut conn);

    let of_b = Submissions::find_submission(&"sb".to_string(), &conn).unwrap();
    assert_eq!(of_b.on_time, Some(false));
    assert!(!of_b.submitted);
    let of_a = Submissions::find_submission(&"sa".to_string(), &conn).unwrap();
    assert_eq!(of_a.on_time, Some(true));
    assert!(of_a.submitted);
}

#[test]
fn the_sweep_leaves_other_assignments_alone() {
    let a = assignment("7", Some(date(2024, 1, 10)), None);
    let b = assignment("8", Some(date(2024, 1, 10)), None);
    let mut conn = store_with(&a);
    assert!(b.draft(&mut conn).is_ok());
    let early = at(date(2024, 1, 1), time(9, 0, 0));
    submission_for(&mut conn, &a, "123", "s1", early);
    submission_for(&mut conn, &b, "123", "s2", early);
    Submissions::recompute_on_time_sweep(&a, at(date(2024, 2, 1), time(9, 0, 0)), &mut conn);
    assert_eq!(Submissions::find_submission(&"s1".to_string(), &conn).unwrap().on_time, Some(false));
    assert_eq!(Submissions::find_submission(&"s2".to_string(), &conn).unwrap().on_time, Some(true));
    assert_eq!(Submissions::load_unsubmitted(&"7".to_string(), &conn).unwrap().len(), 1);
    assert_eq!(Submissions::load_by_assignment(&"8".to_string(), &conn).unwrap().len(), 1);
}

#[test]
fn publishing_fills_in_the_assignment() {
    let a = Assignment::default_with("7".to_string(), at(date(2024, 1, 1), time(8, 0, 0)));
    assert!(a.draft);
    let mut conn = store_with(&a);
    let update = FillableAssignments {
        assignment_name: Some("Essay".to_string()),
        class_id: Some("class".to_string()),
        topic_id: None,
        due_date: Some(date(2024, 1, 10)),
        due_time: None,
        instructions: Some("Write".to_string()),
        creator: Some("234".to_string()),
    };
    let published = a.update(update, &mut conn).unwrap();
    assert!(!published.draft);
    assert_eq!(published.assignment_name, Some("Essay".to_string()));
    assert_eq!(published.due_date, Some(date(2024, 1, 10)));
    assert_eq!(Assignment::load(&"class".to_string(), &conn).unwrap().len(), 1);
    assert_eq!(Assignment::get_by_id(&"7".to_string(), &conn).unwrap().creator, Some("234".to_string()));
    assert!(a.delete(&mut conn).is_ok());
    assert!(matches!(Assignment::get_by_id(&"7".to_string(), &conn), Err(QueryError::NotFound)));
}
