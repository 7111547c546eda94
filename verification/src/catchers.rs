use vstd::prelude::*;
use vstd::string::StringExecFns;

use crate::db::QueryError;
use crate::errors::{AuthError, ErrorKind, Status};
use crate::router::Router;

verus! {

/// What went wrong with a token or a registration, as the user is told.
#[derive(Clone, Copy, Debug, PartialEq, Eq, Structural)]
pub enum Errors {
    FailedToCreateJWT,
    TokenExpired,
    TokenInvalid,
    UserAlreadyExist,
}

impl Errors {
    /// The notice that stands for an error, where there is one: an expired
    /// or invalid token, a token that could not be issued, and a key that
    /// is taken, which at registration means that the user exists.
    pub open spec fn spec_of(e: ErrorKind) -> Option<Errors> {
        match e {
            ErrorKind::JWTError => Some(Errors::FailedToCreateJWT),
            ErrorKind::AuthError(AuthError::TokenExpired) => Some(Errors::TokenExpired),
            ErrorKind::AuthError(AuthError::TokenInvalid) => Some(Errors::TokenInvalid),
            ErrorKind::QueryError(QueryError::UniqueViolation) => Some(Errors::UserAlreadyExist),
            _ => None,
        }
    }

    /// The notice that stands for an error, where there is one.
    pub fn of(e: &ErrorKind) -> (r: Option<Errors>)
        ensures
            r == Errors::spec_of(*e),
    {
        match e {
            ErrorKind::JWTError => Some(Errors::FailedToCreateJWT),
            ErrorKind::AuthError(AuthError::TokenExpired) => Some(Errors::TokenExpired),
            ErrorKind::AuthError(AuthError::TokenInvalid) => Some(Errors::TokenInvalid),
            ErrorKind::QueryError(QueryError::UniqueViolation) => Some(Errors::UserAlreadyExist),
            _ => None,
        }
    }

    /// The sentence that tells the user of the error.
    pub open spec fn spec_message(self) -> Seq<char> {
        match self {
            Errors::FailedToCreateJWT => "Failed to create JWT!"@,
            Errors::TokenExpired => "Token is already expired!"@,
            Errors::TokenInvalid => "Token is invalid!"@,
            Errors::UserAlreadyExist => "User already exist!"@,
        }
    }

    /// The sentence that tells the user of the error.
    pub fn to_string(&self) -> (s: String)
        ensures
            s@ == self.spec_message(),
    {
        match self {
            Errors::FailedToCreateJWT => String::from_str("Failed to create JWT!"),
            Errors::TokenExpired => String::from_str("Token is already expired!"),
            Errors::TokenInvalid => String::from_str("Token is invalid!"),
            Errors::UserAlreadyExist => String::from_str("User already exist!"),
        }
    }
}

/// The name of the member that carries the number in the body of a failure.
#[derive(Clone, Copy, Debug, PartialEq, Eq, Structural)]
pub enum Label {
    Code,
    Status,
}

/// The body that answers a request that failed: `success` is false, and
/// the number of the status stands under `code` or under `status`.
#[derive(Clone, Copy, Debug, PartialEq, Eq, Structural)]
pub struct Failure {
    pub success: bool,
    pub label: Label,
    pub number: u16,
}

/// The body for the status 401.
pub fn unauthorized() -> (r: Failure)
    ensures
        r == (Failure { success: false, label: Label::Code, number: 401 }),
{
    Failure { success: false, label: Label::Code, number: 401 }
}

/// The body for the status 404.
pub fn not_found() -> (r: Failure)
    ensures
        r == (Failure { success: false, label: Label::Code, number: 404 }),
{
    Failure { success: false, label: Label::Code, number: 404 }
}

/// The body for the status 400.
pub fn bad_request() -> (r: Failure)
    ensures
        r == (Failure { success: false, label: Label::Status, number: 400 }),
{
    Failure { success: false, label: Label::Status, number: 400 }
}

/// The body for the status 409.
pub fn conflict() -> (r: Failure)
    ensures
        r == (Failure { success: false, label: Label::Status, number: 409 }),
{
    Failure { success: false, label: Label::Status, number: 409 }
}

/// The body for the status 500.
pub fn server_error() -> (r: Failure)
    ensures
        r == (Failure { success: false, label: Label::Status, number: 500 }),
{
    Failure { success: false, label: Label::Status, number: 500 }
}

/// The body for the status 403.
pub fn forbidden() -> (r: Failure)
    ensures
        r == (Failure { success: false, label: Label::Status, number: 403 }),
{
    Failure { success: false, label: Label::Status, number: 403 }
}

/// The body that answers a failure with the status `status`, where the
/// service has one of its own.
pub fn catch(status: Status) -> (r: Option<Failure>)
    ensures
        r == match status {
            Status::Unauthorized => Some(Failure { success: false, label: Label::Code, number: 401 }),
            Status::NotFound => Some(Failure { success: false, label: Label::Code, number: 404 }),
            Status::BadRequest => Some(Failure { success: false, label: Label::Status, number: 400 }),
            Status::Conflict => Some(Failure { success: false, label: Label::Status, number: 409 }),
            Status::InternalServerError => Some(
                Failure { success: false, label: Label::Status, number: 500 },
            ),
            Status::Forbidden => Some(Failure { success: false, label: Label::Status, number: 403 }),
            _ => None,
        },
        r matches Some(failure) ==> failure.number == status.spec_code() && !failure.success,
{
    match status {
        Status::Unauthorized => Some(unauthorized()),
        Status::NotFound => Some(not_found()),
        Status::BadRequest => Some(bad_request()),
        Status::Conflict => Some(conflict()),
        Status::InternalServerError => Some(server_error()),
        Status::Forbidden => Some(forbidden()),
        _ => None,
    }
}

/// The statuses that the service answers with a body of its own.
pub open spec fn caught() -> Seq<Status> {
    seq![
        Status::Unauthorized,
        Status::NotFound,
        Status::BadRequest,
        Status::Conflict,
        Status::InternalServerError,
        Status::Forbidden,
    ]
}

/// Registers the six catchers.
pub fn mount(rocket: Router) -> (r: Router)
    ensures
        r.routes@ == rocket.routes@,
        r.catchers@ == rocket.catchers@ + caught(),
        r.file_servers@ == rocket.file_servers@,
{
    let mut catchers: Vec<Status> = Vec::new();
    catchers.push(Status::Unauthorized);
    catchers.push(Status::NotFound);
    catchers.push(Status::BadRequest);
    catchers.push(Status::Conflict);
    catchers.push(Status::InternalServerError);
    catchers.push(Status::Forbidden);
    rocket.register(catchers)
}

} // verus!
