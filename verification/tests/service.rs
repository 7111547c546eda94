use thearning::catchers::{
    bad_request, catch, conflict, forbidden, not_found, server_error, unauthorized, Errors, Label,
};
use thearning::classes::models::{ByClassId, Classroom};
use thearning::clock::{Date, DateTime, Time};
use thearning::db::{DbConn, QueryError};
use thearning::errors::{AuthError, ErrorKind, StateError, Status};
use thearning::pagination::{paginate, Paginated, DEFAULT_PAGE_SIZE};
use thearning::router::{Endpoint, MediaDir, Method, Router};
use thearning::server::{allowed_origins, handle_cors, make_cors, rocket, AllowedOrigins};
use thearning::text::{chars_of, contains, copy_of, glue, is};
use thearning::utils::{abs, generate_key, generate_random_id, key_of, notice, to_decimal, NaiveDateForm};

#[test]
fn the_service_mounts_every_route_once() {
    let r = rocket();
    assert_eq!(r.routes.len(), 36);
    assert_eq!(r.routes[0], Endpoint::HandleCors);
    assert_eq!(r.routes[1], Endpoint::CreateUser);
    assert_eq!(r.routes[6], Endpoint::Login);
    assert_eq!(r.routes[7], Endpoint::CreateClassroom);
    assert_eq!(r.routes[32], Endpoint::UpdateClass);
    assert_eq!(r.routes[33], Endpoint::UploadFile);
    assert_eq!(r.routes[34], Endpoint::HandleLink);
    assert_eq!(r.routes[35], Endpoint::DeleteAttachment);
    for (i, a) in r.routes.iter().enumerate() {
        for b in r.routes.iter().skip(i + 1) {
            assert_ne!(a, b);
        }
    }
    assert_eq!(
        r.catchers,
        vec![
            Status::Unauthorized,
            Status::NotFound,
            Status::BadRequest,
            Status::Conflict,
            Status::InternalServerError,
            Status::Forbidden,
        ]
    );
    assert_eq!(r.file_servers, vec![MediaDir::Profiles, MediaDir::Classes, MediaDir::Attachments]);
}

#[test]
fn routes_have_their_methods_and_paths() {
    assert_eq!(Endpoint::SubmitSubmission.method(), Method::Post);
    assert_eq!(Endpoint::SubmitSubmission.base(), "/api/classroom");
    assert_eq!(Endpoint::SubmitSubmission.path(), "/<class_id>/submissions/<submission_id>/submit");
    assert_eq!(Endpoint::UnsubmitSubmission.path(), "/<class_id>/submissions/<submission_id>/unsubmit");
    assert_eq!(Endpoint::UpdateMark.method(), Method::Patch);
    assert_eq!(Endpoint::MarkSubmission.method(), Method::Post);
    assert_eq!(Endpoint::MarkSubmission.path(), Endpoint::UpdateMark.path());
    assert_eq!(Endpoint::Login.base(), "/api/auth");
    assert_eq!(Endpoint::Info.method(), Method::Get);
    assert_eq!(Endpoint::Info.base(), "/api/user");
    assert_eq!(Endpoint::DeleteAttachment.method(), Method::Delete);
    assert_eq!(Endpoint::DeleteAttachment.base(), "/api/attachments");
    assert_eq!(Endpoint::DeleteAttachment.path(), "/<attachment_id>");
    assert_eq!(Endpoint::HandleCors.method(), Method::Options);
    assert_eq!(Endpoint::HandleCors.path(), "/<_..>");
    assert_eq!(Endpoint::UploadFile.base(), "/api/upload");
    assert_eq!(Endpoint::HandleLink.base(), "/api/links");
    assert_eq!(Endpoint::Join.path(), "/<class_id>");
    assert_eq!(MediaDir::Profiles.base(), "/api/media/img/profiles");
    assert_eq!(MediaDir::Profiles.dir(), "media/profiles");
    assert_eq!(MediaDir::Attachments.base(), "/api/media/attachments");
    assert_eq!(MediaDir::Classes.dir(), "media/classes");
}

#[test]
fn mounting_appends() {
    let r = Router::build();
    assert!(r.routes.is_empty());
    let r = thearning::attachments::routes::mount(r);
    let r = thearning::links::routes::mount(r);
    let r = thearning::errors::mount(r);
    let r = thearning::catchers::mount(r);
    assert_eq!(r.routes, vec![Endpoint::DeleteAttachment, Endpoint::HandleLink]);
    assert_eq!(r.catchers.len(), 12);
    let r = thearning::files::routes::mount(r);
    assert_eq!(r.routes.len(), 3);
    assert_eq!(r.file_servers.len(), 3);
    let r = thearning::users::routes::mount(r).serve(MediaDir::Profiles).register(vec![Status::Conflict]);
    assert_eq!(r.routes.len(), 9);
    assert_eq!(r.file_servers.len(), 4);
    assert_eq!(r.catchers.len(), 13);
}

#[test]
fn cors_allows_five_methods() {
    let cors = make_cors(None);
    assert!(matches!(cors.allowed_origins, AllowedOrigins::All));
    assert_eq!(
        cors.allowed_methods,
        vec![Method::Get, Method::Post, Method::Options, Method::Delete, Method::Patch]
    );
    assert!(cors.allow_credentials);
    assert!(cors.all_headers);
    let cors = make_cors(Some("example.com".to_string()));
    assert!(matches!(cors.allowed_origins, AllowedOrigins::Exact(ref d) if d == "example.com"));
    assert!(matches!(allowed_origins(None), AllowedOrigins::All));
    assert_eq!(handle_cors(), Status::Success);
}

#[test]
fn failures_have_their_bodies() {
    assert_eq!((unauthorized().label, unauthorized().number), (Label::Code, 401));
    assert_eq!((not_found().label, not_found().number), (Label::Code, 404));
    assert_eq!((bad_request().label, bad_request().number), (Label::Status, 400));
    assert_eq!((conflict().label, conflict().number), (Label::Status, 409));
    assert_eq!((server_error().label, server_error().number), (Label::Status, 500));
    assert_eq!((forbidden().label, forbidden().number), (Label::Status, 403));
    assert!(!unauthorized().success);
    assert_eq!(catch(Status::Conflict), Some(conflict()));
    assert_eq!(catch(Status::Success), None);
    assert_eq!(catch(Status::UnprocessableEntity), None);
}

#[test]
fn statuses_have_their_codes() {
    assert_eq!(Status::Success.code(), 200);
    assert_eq!(Status::BadRequest.code(), 400);
    assert_eq!(Status::Unauthorized.code(), 401);
    assert_eq!(Status::Forbidden.code(), 403);
    assert_eq!(Status::NotFound.code(), 404);
    assert_eq!(Status::Conflict.code(), 409);
    assert_eq!(Status::UnprocessableEntity.code(), 422);
    assert_eq!(Status::InternalServerError.code(), 500);
    assert_eq!(Status::ServiceUnavailable.code(), 503);
}

#[test]
fn errors_map_to_statuses() {
    assert_eq!(ErrorKind::AuthError(AuthError::TokenInvalid).status(), Status::Unauthorized);
    assert_eq!(ErrorKind::AuthError(AuthError::TokenExpired).status(), Status::Unauthorized);
    assert_eq!(ErrorKind::AuthError(AuthError::Unauthorized).status(), Status::Forbidden);
    assert_eq!(ErrorKind::StateError(StateError::AlreadySubmitted).status(), Status::BadRequest);
    assert_eq!(ErrorKind::StateError(StateError::NotSubmitted).status(), Status::BadRequest);
    assert_eq!(ErrorKind::StateError(StateError::AlreadyGraded).status(), Status::Conflict);
    assert_eq!(ErrorKind::QueryError(QueryError::NotFound).status(), Status::NotFound);
    assert_eq!(ErrorKind::QueryError(QueryError::UniqueViolation).status(), Status::Conflict);
    assert_eq!(ErrorKind::JWTError.status(), Status::InternalServerError);
    assert_eq!(ErrorKind::InvalidValue.status(), Status::BadRequest);
}

#[test]
fn errors_have_their_words() {
    assert_eq!(ErrorKind::InvalidValue.to_string(), "Invalid");
    assert_eq!(ErrorKind::JWTError.to_string(), "Failed to create JWT!");
    assert_eq!(ErrorKind::QueryError(QueryError::NotFound).to_string(), "Record not found");
    assert_eq!(ErrorKind::QueryError(QueryError::UniqueViolation).to_string(), "Key already exists");
    assert_eq!(ErrorKind::AuthError(AuthError::TokenExpired).to_string(), "Token is already expired!");
    assert_eq!(ErrorKind::AuthError(AuthError::TokenInvalid).to_string(), "Token is invalid!");
    assert_eq!(ErrorKind::AuthError(AuthError::Unauthorized).to_string(), "Unauthorized");
    assert_eq!(ErrorKind::StateError(StateError::AlreadySubmitted).to_string(), "Already submitted");
    assert_eq!(ErrorKind::StateError(StateError::NotSubmitted).to_string(), "Not submitted");
    assert_eq!(ErrorKind::StateError(StateError::AlreadyGraded).to_string(), "Already graded");
}

#[test]
fn notices_have_their_sentences() {
    assert_eq!(Errors::FailedToCreateJWT.to_string(), "Failed to create JWT!");
    assert_eq!(Errors::TokenExpired.to_string(), "Token is already expired!");
    assert_eq!(Errors::TokenInvalid.to_string(), "Token is invalid!");
    assert_eq!(Errors::UserAlreadyExist.to_string(), "User already exist!");
    assert_eq!(Errors::of(&ErrorKind::JWTError), Some(Errors::FailedToCreateJWT));
    assert_eq!(Errors::of(&ErrorKind::AuthError(AuthError::TokenExpired)), Some(Errors::TokenExpired));
    assert_eq!(Errors::of(&ErrorKind::AuthError(AuthError::TokenInvalid)), Some(Errors::TokenInvalid));
    assert_eq!(Errors::of(&ErrorKind::QueryError(QueryError::UniqueViolation)), Some(Errors::UserAlreadyExist));
    assert_eq!(Errors::of(&ErrorKind::InvalidValue), None);
    assert_eq!(Errors::of(&ErrorKind::AuthError(AuthError::Unauthorized)), None);
}

#[test]
fn pages_are_counted_from_one() {
    let p = paginate("query", 3);
    assert_eq!(p.page, 3);
    assert_eq!(p.page_size, DEFAULT_PAGE_SIZE);
    assert_eq!(p.offset(), Some(2));
    assert_eq!(paginate((), 1).offset(), Some(0));
    assert_eq!((Paginated { query: (), page: 4, page_size: 25 }).offset(), Some(75));
    assert_eq!((Paginated { query: (), page: 0, page_size: 25 }).offset(), Some(-25));
    assert_eq!((Paginated { query: (), page: i64::MAX, page_size: 2 }).offset(), None);
    assert_eq!((Paginated { query: (), page: i64::MIN, page_size: 1 }).offset(), None);
    assert_eq!((Paginated { query: (), page: i64::MIN, page_size: 0 }).offset(), Some(0));
}

#[test]
fn numbers_are_written_in_decimal() {
    assert_eq!(to_decimal(0), "0");
    assert_eq!(to_decimal(7), "7");
    assert_eq!(to_decimal(10), "10");
    assert_eq!(to_decimal(1234567890), "1234567890");
    assert_eq!(to_decimal(u32::MAX), "4294967295");
    assert_eq!(key_of(12, 345), "12345");
    assert_eq!(key_of(0, 0), "00");
}

#[test]
fn ids_are_never_negative() {
    assert_eq!(abs(-5), 5);
    assert_eq!(abs(5), 5);
    assert_eq!(abs(0), 0);
    assert_eq!(abs(i32::MIN), i32::MAX);
    assert_eq!(abs(i32::MIN + 1), i32::MAX);
    for _ in 0..100 {
        assert!(generate_random_id() >= 0);
    }
    let key = generate_key();
    assert!(key.len() >= 2);
    assert!(key.chars().all(|c| c.is_ascii_digit()));
    assert_ne!(generate_key(), key);
}

#[test]
fn dates_of_forms_are_read() {
    let form = NaiveDateForm::from_value(&"2024-01-10".to_string()).unwrap();
    assert_eq!(*form.deref(), Date { year: 2024, month: 1, day: 10 });
    assert_eq!(form.0, Date::from_ymd_opt(2024, 1, 10).unwrap());
    assert!(matches!(NaiveDateForm::from_value(&"2024-02-30".to_string()), Err(ErrorKind::InvalidValue)));
    assert!(matches!(NaiveDateForm::from_value(&"10.01.2024".to_string()), Err(ErrorKind::InvalidValue)));
    assert!(matches!(NaiveDateForm::from_value(&"".to_string()), Err(ErrorKind::InvalidValue)));
}

#[test]
fn the_calendar_knows_its_days() {
    assert!(Date::from_ymd_opt(2024, 2, 29).is_some());
    assert!(Date::from_ymd_opt(2023, 2, 29).is_none());
    assert!(Date::from_ymd_opt(1900, 2, 29).is_none());
    assert!(Date::from_ymd_opt(2000, 2, 29).is_some());
    assert!(Date::from_ymd_opt(2024, 4, 31).is_none());
    assert!(Date::from_ymd_opt(2024, 12, 31).is_some());
    assert!(Date::from_ymd_opt(2024, 13, 1).is_none());
    assert!(Date::from_ymd_opt(2024, 0, 1).is_none());
    assert!(Date::from_ymd_opt(2024, 1, 0).is_none());
    assert!(Date::from_ymd_opt(-4, 2, 29).is_some());
    assert!(Time::from_hms_opt(23, 59, 59).is_some());
    assert!(Time::from_hms_opt(24, 0, 0).is_none());
    assert!(Time::from_hms_opt(0, 60, 0).is_none());
    assert!(Time::from_hms_opt(0, 0, 60).is_none());
    assert_eq!(Time::end_of_day(), Time { hour: 23, minute: 59, second: 59, nano: 0 });
    let a = Date::from_ymd_opt(2024, 1, 31).unwrap();
    let b = Date::from_ymd_opt(2024, 2, 1).unwrap();
    assert!(a.is_before(&b) && !b.is_before(&a) && !a.is_before(&a));
    let early = DateTime::new(a, Time::from_hms_opt(23, 0, 0).unwrap());
    let late = DateTime::new(b, Time::from_hms_opt(1, 0, 0).unwrap());
    assert!(early.is_before(&late));
    assert!(Time::from_hms_opt(1, 0, 0).unwrap().is_before(&Time::from_hms_opt(1, 0, 1).unwrap()));
}

#[test]
fn texts_are_searched_and_glued() {
    assert!(contains(&"https://youtu.be/x".to_string(), "youtu.be"));
    assert!(contains(&"abc".to_string(), ""));
    assert!(contains(&"abc".to_string(), "abc"));
    assert!(contains(&"abc".to_string(), "c"));
    assert!(!contains(&"abc".to_string(), "abcd"));
    assert!(!contains(&"abc".to_string(), "ac"));
    assert!(!contains(&"".to_string(), "a"));
    assert!(contains(&"aab".to_string(), "ab"));
    assert_eq!(chars_of("héllo"), vec!['h', 'é', 'l', 'l', 'o']);
    assert!(is(&"admin".to_string(), "admin"));
    assert!(!is(&"admin".to_string(), "Admin"));
    assert_eq!(copy_of(&Some("x".to_string())), Some("x".to_string()));
    assert_eq!(copy_of(&None), None);
    assert_eq!(glue(&vec![" a ".to_string(), "\tb\n".to_string(), "".to_string()]), "ab");
    let html = notice("Assignment", &"Ann".to_string(), &"Essay".to_string(), &"Write".to_string());
    assert_eq!(
        html,
        "<!DOCTYPE html>\n<html lang=\"en\">\n<head>\n    <meta charset=\"UTF-8\">\n    <meta name=\"viewport\" content=\"width=device-width, initial-scale=1.0\">\n    <title>New Assignment!</title>\n</head>\n<body>\n    <div style=\"display: block; align-items: center;\">\n        <h2 style=\"font-family: Arial, Helvetica, sans-serif;\">New Assignment from Ann: Essay</h2>\n        <br>\n        <h4 style=\"font-family: Arial, Helvetica, sans-serif;\">Write</h4>\n    </div>\n</body>\n</html>"
    );
}

#[test]
fn ids_are_listed_in_table_order() {
    let mut conn = DbConn::new();
    let now = DateTime::new(Date::from_ymd_opt(2024, 1, 1).unwrap(), Time::from_hms_opt(0, 0, 0).unwrap());
    for id in ["b", "a"] {
        thearning::assignments::models::Assignment::default_with(id.to_string(), now).draft(&mut conn).unwrap();
        let text = id.to_string();
        thearning::files::models::UploadedFile::new_at(&text, &text, &text, &text, &text, now, &mut conn).unwrap();
    }
    assert_eq!(thearning::assignments::utils::get_ids(&conn).unwrap(), vec!["b".to_string(), "a".to_string()]);
    assert_eq!(thearning::files::utils::get_file_ids(&conn).unwrap(), vec!["b".to_string(), "a".to_string()]);
}

#[test]
fn a_table_keeps_its_keys_apart() {
    let mut conn = DbConn::new();
    let now = DateTime::new(Date::from_ymd_opt(2024, 1, 1).unwrap(), Time::from_hms_opt(0, 0, 0).unwrap());
    let row = |id: &str, name: &str| Classroom {
        class_id: id.to_string(),
        class_name: name.to_string(),
        class_creator: None,
        class_description: None,
        class_image: None,
        section: "".to_string(),
        created_at: now,
    };
    assert!(conn.classes.insert(row("a", "A")).is_ok());
    assert!(conn.classes.insert(row("b", "B")).is_ok());
    assert_eq!(conn.classes.insert(row("a", "again")), Err(QueryError::UniqueViolation));
    assert_eq!(conn.classes.len(), 2);
    assert_eq!(conn.classes.put(1, row("a", "clash")), Err(QueryError::UniqueViolation));
    assert!(conn.classes.put(1, row("c", "C")).is_ok());
    assert_eq!(conn.classes.get(1).class_id, "c");
    conn.classes.replace(0, row("a", "renamed"));
    assert_eq!(conn.classes.find(&ByClassId(&"a".to_string())).unwrap().class_name, "renamed");
    assert_eq!(conn.classes.position(&ByClassId(&"c".to_string())), Some(1));
    assert_eq!(conn.classes.position(&ByClassId(&"b".to_string())), None);
    assert_eq!(conn.classes.select(&ByClassId(&"c".to_string())).len(), 1);
    assert_eq!(conn.classes.remove(0).class_id, "a");
    assert_eq!(conn.classes.rows().len(), 1);
    conn.classes.keys_apart();
}
