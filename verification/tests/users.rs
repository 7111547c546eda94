use thearning::auth::{read_token_at, ApiKey};
use thearning::clock::{Date, DateTime, Time};
use thearning::db::{DbConn, QueryError};
use thearning::errors::{ErrorKind, Status};
use thearning::files::routes::Site;
use thearning::users::models::{InsertableUser, Membership, PasswordChange, ResponseUser, Role, UpdatableUser, User};
use thearning::users::routes::{create, delete_user, info, login, password_change, update_user, Auth, Credentials};
use thearning::users::utils::is_email;

const NOW: u64 = 1_700_000_000_000_000_000;

fn now() -> DateTime {
    DateTime::new(Date::from_ymd_opt(2024, 1, 1).unwrap(), Time::from_hms_opt(8, 0, 0).unwrap())
}

fn site() -> Site {
    Site { url: "localhost:8000".to_string(), dir: "/srv/thearning".to_string() }
}

fn secret() -> String {
    "a secret for the tests".to_string()
}

fn form(user_id: &str, fullname: &str, email: &str, status: &str) -> InsertableUser {
    InsertableUser {
        user_id: user_id.to_string(),
        fullname: fullname.to_string(),
        email: email.to_string(),
        password: "dummy".to_string(),
        birth_place: "".to_string(),
        birth_date: Date::from_ymd_opt(2000, 1, 1).unwrap(),
        bio: "Dummy".to_string(),
        status: status.to_string(),
        file_name: Some("placeholder.png".to_string()),
    }
}

fn dummies() -> DbConn {
    let mut conn = DbConn::new();
    let student = form("123", "Dummy Student", "dummystudent@mail.com", "student");
    let teacher = form("234", "Dummy Teacher", "dummyteacher@mail.com", "teacher");
    assert_eq!(create(student, false, &site(), now(), &mut conn).unwrap().status, 200);
    assert_eq!(create(teacher, false, &site(), now(), &mut conn).unwrap().status, 200);
    conn
}

fn auth_request(conn: &DbConn) -> (Auth, Auth) {
    let first = Credentials { key: "123".to_string(), password: "dummy".to_string() };
    let second = Credentials { key: "234".to_string(), password: "dummy".to_string() };
    (login(first, &secret(), NOW, conn).unwrap(), login(second, &secret(), NOW, conn).unwrap())
}

#[test]
fn tests_t_1_create_user() {
    let mut conn = DbConn::new();
    let student = form("123", "Dummy Student", "dummystudent@mail.com", "student");
    let teacher = form("234", "Dummy Teacher", "dummyteacher@mail.com", "teacher");
    let response_create = create(student, false, &site(), now(), &mut conn);
    let response_create_2 = create(teacher, false, &site(), now(), &mut conn);
    assert_eq!(response_create.unwrap().status, Status::Success.code());
    assert_eq!(response_create_2.unwrap().status, Status::Success.code());
}

#[test]
fn tests_t_2_auth() {
    let conn = dummies();
    let r = auth_request(&conn);
    assert_eq!(r.0.status, 200);
    assert_eq!(r.1.status, 200);
}

#[test]
fn tests_t_3_get_data() {
    let conn = dummies();
    let r = auth_request(&conn);
    let key = ApiKey(read_token_at(&r.0.token, &secret(), NOW).unwrap());
    let key_2 = ApiKey(read_token_at(&r.1.token, &secret(), NOW).unwrap());
    let r_2 = info(&key, &conn).unwrap();
    let r_3 = info(&key_2, &conn).unwrap();
    assert_eq!(r_2.data.user_id, "123");
    assert_eq!(r_3.data.user_id, "234");
}

#[test]
fn t_5_join_classroom() {
    let mut conn = dummies();
    let token = auth_request(&conn).0.token;
    let class_id = "AbCdEfGhIj".to_string();
    let user_id = read_token_at(&token, &secret(), NOW).unwrap();
    let create_student = Membership::create(&user_id, &class_id, Role::Student, &mut conn);
    assert!(create_student.is_ok());
}

fn dummy() -> DbConn {
    let mut conn = DbConn::new();
    let mut user = form("123", "Dummy", "dummy@mail.com", "student");
    user.file_name = Some("dummy.jpg".to_string());
    assert_eq!(create(user, false, &site(), now(), &mut conn).unwrap().status, 200);
    conn
}

#[test]
fn test_t_1_create_user() {
    let mut conn = DbConn::new();
    let mut user = form("123", "Dummy", "dummy@mail.com", "student");
    user.file_name = Some("dummy.jpg".to_string());
    let response_create = create(user, false, &site(), now(), &mut conn);
    assert_eq!(response_create.unwrap().status, Status::Success.code());
}

#[test]
fn test_t_2_auth() {
    let conn = dummy();
    let credentials = Credentials { key: "123".to_string(), password: "dummy".to_string() };
    let r = login(credentials, &secret(), NOW, &conn).unwrap();
    assert_eq!(r.status, 200);
}

#[test]
fn test_t_3_get_data() {
    let conn = dummy();
    let credentials = Credentials { key: "123".to_string(), password: "dummy".to_string() };
    let r = login(credentials, &secret(), NOW, &conn).unwrap();
    let key = ApiKey(read_token_at(&r.token, &secret(), NOW).unwrap());
    let r_2 = info(&key, &conn).unwrap();
    assert_eq!(r_2.data.user_id, "123");
}

#[test]
fn t_4_delete_user() {
    let mut conn = dummy();
    let before = conn.users.len();
    let user = User::find_user(&"123".to_string(), &conn).unwrap();
    let deleted_rows = user.delete(&mut conn).map(|_| 1);
    assert_eq!(Ok(1), deleted_rows.map_err(|_| ()));
    assert_eq!(conn.users.len(), before - 1);
    assert!(user.delete(&mut conn).is_err());
}

#[test]
fn is_email_looks_for_the_at_sign() {
    assert!(is_email(&"dummy@mail.com".to_string()));
    assert!(!is_email(&"123".to_string()));
    assert!(!is_email(&"".to_string()));
    assert!(is_email(&"@".to_string()));
}

#[test]
fn roles_are_read_from_their_texts() {
    assert_eq!(Role::from_str(&"admin".to_string()).unwrap(), Role::Admin);
    assert_eq!(Role::from_str(&"teacher".to_string()).unwrap(), Role::Teacher);
    assert_eq!(Role::from_str(&"student".to_string()).unwrap(), Role::Student);
    assert!(matches!(Role::from_str(&"Student".to_string()), Err(ErrorKind::InvalidValue)));
    assert!(matches!(Role::from_str(&"".to_string()), Err(ErrorKind::InvalidValue)));
    assert_eq!(Role::Admin.to_string(), "admin");
    assert_eq!(Role::Teacher.to_string(), "teacher");
    assert_eq!(Role::Student.to_string(), "student");
}

#[test]
fn registration_hashes_the_password_and_sets_the_placeholder() {
    let conn = dummies();
    let user = User::find_user(&"123".to_string(), &conn).unwrap();
    assert_ne!(user.password, "dummy");
    assert!(user.password.starts_with("$2"));
    assert_eq!(user.profile_photo, "localhost:8000/api/media/img/placeholder.png");
    assert_eq!(user.created_at, now());
    assert!(user.is_student());
    assert!(!user.is_teacher());
    assert!(!user.is_admin());
    assert_eq!(User::get_role(&"234".to_string(), &conn).unwrap(), Role::Teacher);
    assert_eq!(User::get_id_from_email(&"dummyteacher@mail.com".to_string(), &conn).unwrap(), "234");
    assert_eq!(User::get_all(&conn).unwrap().len(), 2);
}

#[test]
fn registration_with_an_image_records_the_file() {
    let mut conn = DbConn::new();
    let saved = create(form("123", "Dummy", "d@mail.com", "student"), true, &site(), now(), &mut conn).unwrap();
    let upload = saved.upload.unwrap();
    assert!(upload.path.starts_with("/srv/thearning/media/profiles/"));
    assert!(upload.path.ends_with("-placeholder.png"));
    assert!(upload.url.starts_with("http://localhost:8000/api/media/img/profiles/"));
    assert_eq!(conn.files.len(), 1);
    assert_eq!(conn.files.get(0).file_url, upload.url);
    assert_eq!(conn.files.get(0).filetype, "image");
    assert_eq!(User::find_user(&"123".to_string(), &conn).unwrap().profile_photo, upload.url);
}

#[test]
fn registration_is_refused_for_an_unknown_status_or_a_taken_key() {
    let mut conn = dummies();
    let r = create(form("999", "X", "x@mail.com", "janitor"), false, &site(), now(), &mut conn);
    assert_eq!(r.unwrap_err(), Status::Conflict);
    let r = create(form("123", "X", "x@mail.com", "student"), false, &site(), now(), &mut conn);
    assert_eq!(r.unwrap_err(), Status::Conflict);
    let r = create(form("999", "X", "dummystudent@mail.com", "student"), false, &site(), now(), &mut conn);
    assert_eq!(r.unwrap_err(), Status::Conflict);
    assert_eq!(conn.users.len(), 2);
}

#[test]
fn login_is_refused_for_a_wrong_password_or_an_unknown_user() {
    let conn = dummies();
    let wrong = Credentials { key: "123".to_string(), password: "dumy".to_string() };
    assert_eq!(login(wrong, &secret(), NOW, &conn).unwrap_err(), Status::NotFound);
    let unknown = Credentials { key: "555".to_string(), password: "dummy".to_string() };
    assert_eq!(login(unknown, &secret(), NOW, &conn).unwrap_err(), Status::NotFound);
    assert!(User::get_by_key(&"123".to_string(), "dummy".to_string(), &conn).is_some());
    assert!(User::get_by_key(&"123".to_string(), "other".to_string(), &conn).is_none());
}

#[test]
fn info_of_an_unknown_caller_is_not_found() {
    let conn = dummies();
    assert_eq!(info(&ApiKey("555".to_string()), &conn).unwrap_err(), Status::NotFound);
    let profile = info(&ApiKey("234".to_string()), &conn).unwrap();
    assert_eq!(profile.status, 200);
    assert_eq!(profile.data.email, "dummyteacher@mail.com");
    assert_eq!(profile.data.status, "teacher");
}

#[test]
fn only_an_admin_deletes_users() {
    let mut conn = dummies();
    create(form("1", "Root", "root@mail.com", "admin"), false, &site(), now(), &mut conn).unwrap();
    let r = delete_user(&ApiKey("234".to_string()), "123".to_string(), &mut conn);
    assert_eq!(r.unwrap_err(), Status::Unauthorized);
    assert_eq!(conn.users.len(), 3);
    let r = delete_user(&ApiKey("1".to_string()), "123".to_string(), &mut conn);
    assert_eq!(r.unwrap(), Status::Success);
    assert_eq!(conn.users.len(), 2);
    assert!(matches!(
        User::find_user(&"123".to_string(), &conn),
        Err(ErrorKind::QueryError(QueryError::NotFound))
    ));
    let r = delete_user(&ApiKey("1".to_string()), "nobody".to_string(), &mut conn);
    assert_eq!(r.unwrap(), Status::Success);
    assert_eq!(conn.users.len(), 2);
}

#[test]
fn a_password_is_changed_only_with_the_old_one() {
    let mut conn = dummies();
    let key = ApiKey("123".to_string());
    let wrong = PasswordChange {
        user_id: "123".to_string(),
        password: "nope".to_string(),
        new_password: "fresh".to_string(),
    };
    assert_eq!(password_change(&key, wrong, &mut conn).unwrap_err(), Status::Unauthorized);
    assert!(User::get_by_key(&"123".to_string(), "dummy".to_string(), &conn).is_some());
    let right = PasswordChange {
        user_id: "123".to_string(),
        password: "dummy".to_string(),
        new_password: "fresh".to_string(),
    };
    assert_eq!(password_change(&key, right, &mut conn).unwrap(), Status::Success);
    assert!(User::get_by_key(&"123".to_string(), "fresh".to_string(), &conn).is_some());
    assert!(User::get_by_key(&"123".to_string(), "dummy".to_string(), &conn).is_none());
    let ghost = PasswordChange {
        user_id: "555".to_string(),
        password: "dummy".to_string(),
        new_password: "fresh".to_string(),
    };
    assert_eq!(password_change(&ApiKey("555".to_string()), ghost, &mut conn).unwrap_err(), Status::NotFound);
}

#[test]
fn a_profile_is_updated_but_not_onto_a_taken_address() {
    let mut conn = dummies();
    let key = ApiKey("123".to_string());
    let data = UpdatableUser {
        fullname: "New Name".to_string(),
        email: "new@mail.com".to_string(),
        birth_place: "Here".to_string(),
        birth_date: Date::from_ymd_opt(2001, 2, 3).unwrap(),
        bio: "New".to_string(),
        file_name: None,
    };
    let saved = update_user(&key, data, false, &site(), now(), &mut conn).unwrap();
    assert_eq!(saved.status, 200);
    assert!(saved.upload.is_none());
    let user = User::find_user(&"123".to_string(), &conn).unwrap();
    assert_eq!(user.fullname, "New Name");
    assert_eq!(user.email, "new@mail.com");
    assert_eq!(user.status, "student");
    let clash = UpdatableUser {
        fullname: "New Name".to_string(),
        email: "dummyteacher@mail.com".to_string(),
        birth_place: "Here".to_string(),
        birth_date: Date::from_ymd_opt(2001, 2, 3).unwrap(),
        bio: "New".to_string(),
        file_name: None,
    };
    let r = update_user(&key, clash, false, &site(), now(), &mut conn);
    assert_eq!(r.unwrap_err(), Status::UnprocessableEntity);
    assert_eq!(User::find_user(&"123".to_string(), &conn).unwrap().email, "new@mail.com");
}

#[test]
fn a_user_joins_a_classroom_once() {
    let mut conn = DbConn::new();
    let user = "123".to_string();
    let class = "classA".to_string();
    let first = Membership::create_with(&user, &class, Role::Student, 1, now(), &mut conn);
    assert!(first.is_ok());
    let second = Membership::create_with(&user, &class, Role::Student, 2, now(), &mut conn);
    assert!(matches!(second, Err(ErrorKind::QueryError(QueryError::UniqueViolation))));
    let as_teacher = Membership::create_with(&user, &class, Role::Teacher, 3, now(), &mut conn);
    assert!(matches!(as_teacher, Err(ErrorKind::QueryError(QueryError::UniqueViolation))));
    assert_eq!(conn.memberships.len(), 1);
    assert_eq!(Membership::load_in_class(&class, Role::Student, &conn).unwrap().len(), 1);
    assert_eq!(Membership::find(&user, Role::Student, &conn).unwrap().len(), 1);
    let other = Membership::create_with(&user, &"classB".to_string(), Role::Student, 2, now(), &mut conn);
    assert!(other.is_ok());
    assert_eq!(conn.memberships.len(), 2);
}

#[test]
fn response_users_carry_no_password() {
    let conn = dummies();
    let users = User::get_all(&conn).unwrap();
    let shown = ResponseUser::from_iter(users);
    assert_eq!(shown.len(), 2);
    assert_eq!(shown[0].user_id, "123");
    assert_eq!(shown[1].user_id, "234");
    assert_eq!(shown[1].fullname, "Dummy Teacher");
}
