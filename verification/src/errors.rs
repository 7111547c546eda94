use vstd::prelude::*;
use vstd::string::StringExecFns;

use crate::db::QueryError;
use crate::router::Router;

verus! {

/// The HTTP statuses that the handlers answer with.
#[derive(Clone, Copy, Debug, PartialEq, Eq, Structural)]
pub enum Status {
    Success,
    BadRequest,
    Unauthorized,
    Forbidden,
    NotFound,
    Conflict,
    UnprocessableEntity,
    InternalServerError,
    ServiceUnavailable,
}

impl Status {
    /// The number of the status on the wire.
    pub open spec fn spec_code(self) -> u16 {
        match self {
            Status::Success => 200,
            Status::BadRequest => 400,
            Status::Unauthorized => 401,
            Status::Forbidden => 403,
            Status::NotFound => 404,
            Status::Conflict => 409,
            Status::UnprocessableEntity => 422,
            Status::InternalServerError => 500,
            Status::ServiceUnavailable => 503,
        }
    }

    /// The number of the status on the wire.
    pub fn code(&self) -> (n: u16)
        ensures
            n == self.spec_code(),
    {
        match self {
            Status::Success => 200,
            Status::BadRequest => 400,
            Status::Unauthorized => 401,
            Status::Forbidden => 403,
            Status::NotFound => 404,
            Status::Conflict => 409,
            Status::UnprocessableEntity => 422,
            Status::InternalServerError => 500,
            Status::ServiceUnavailable => 503,
        }
    }
}

/// Why a caller was not let in.
#[derive(Clone, Copy, Debug, PartialEq, Eq, Structural)]
pub enum AuthError {
    /// The token is malformed or its signature does not verify.
    TokenInvalid,
    /// The token was presented after its expiry.
    TokenExpired,
    /// The caller takes no part in the classroom.
    Unauthorized,
}

/// A transition that the state of a submission does not allow.
#[derive(Clone, Copy, Debug, PartialEq, Eq, Structural)]
pub enum StateError {
    AlreadySubmitted,
    NotSubmitted,
    AlreadyGraded,
}

/// Everything that can go wrong inside the library.
#[derive(Clone, Copy, Debug, PartialEq, Eq, Structural)]
pub enum ErrorKind {
    /// The store turned a statement down.
    QueryError(QueryError),
    /// A token could not be issued.
    JWTError,
    /// The caller was not let in.
    AuthError(AuthError),
    /// The submission is not in a state that allows the step.
    StateError(StateError),
    /// A value of a request is not one of those the library knows.
    InvalidValue,
}

pub type ThearningResult<T> = Result<T, ErrorKind>;

impl ErrorKind {
    /// The status that stands for the error in a response: 401 for a token
    /// that is not accepted, 403 for a caller outside the classroom, 400 for
    /// a submit or unsubmit out of turn, 409 for a second grade or a repeated
    /// key, 404 for a row that is not there, 500 for a token that could not
    /// be issued, 400 for an unknown value.
    pub open spec fn spec_status(self) -> Status {
        match self {
            ErrorKind::QueryError(QueryError::NotFound) => Status::NotFound,
            ErrorKind::QueryError(QueryError::UniqueViolation) => Status::Conflict,
            ErrorKind::JWTError => Status::InternalServerError,
            ErrorKind::AuthError(AuthError::Unauthorized) => Status::Forbidden,
            ErrorKind::AuthError(_) => Status::Unauthorized,
            ErrorKind::StateError(StateError::AlreadyGraded) => Status::Conflict,
            ErrorKind::StateError(_) => Status::BadRequest,
            ErrorKind::InvalidValue => Status::BadRequest,
        }
    }

    /// The status that stands for the error in a response.
    pub fn status(&self) -> (s: Status)
        ensures
            s == self.spec_status(),
    {
        match self {
            ErrorKind::QueryError(QueryError::NotFound) => Status::NotFound,
            ErrorKind::QueryError(QueryError::UniqueViolation) => Status::Conflict,
            ErrorKind::JWTError => Status::InternalServerError,
            ErrorKind::AuthError(AuthError::Unauthorized) => Status::Forbidden,
            ErrorKind::AuthError(_) => Status::Unauthorized,
            ErrorKind::StateError(StateError::AlreadyGraded) => Status::Conflict,
            ErrorKind::StateError(_) => Status::BadRequest,
            ErrorKind::InvalidValue => Status::BadRequest,
        }
    }
}

impl ErrorKind {
    /// The words for the error.
    pub open spec fn spec_message(self) -> Seq<char> {
        match self {
            ErrorKind::QueryError(QueryError::NotFound) => "Record not found"@,
            ErrorKind::QueryError(QueryError::UniqueViolation) => "Key already exists"@,
            ErrorKind::JWTError => "Failed to create JWT!"@,
            ErrorKind::AuthError(AuthError::TokenInvalid) => "Token is invalid!"@,
            ErrorKind::AuthError(AuthError::TokenExpired) => "Token is already expired!"@,
            ErrorKind::AuthError(AuthError::Unauthorized) => "Unauthorized"@,
            ErrorKind::StateError(StateError::AlreadySubmitted) => "Already submitted"@,
            ErrorKind::StateError(StateError::NotSubmitted) => "Not submitted"@,
            ErrorKind::StateError(StateError::AlreadyGraded) => "Already graded"@,
            ErrorKind::InvalidValue => "Invalid"@,
        }
    }

    /// The words for the error.
    pub fn to_string(&self) -> (s: String)
        ensures
            s@ == self.spec_message(),
    {
        let words = match self {
            ErrorKind::QueryError(QueryError::NotFound) => "Record not found",
            ErrorKind::QueryError(QueryError::UniqueViolation) => "Key already exists",
            ErrorKind::JWTError => "Failed to create JWT!",
            ErrorKind::AuthError(AuthError::TokenInvalid) => "Token is invalid!",
            ErrorKind::AuthError(AuthError::TokenExpired) => "Token is already expired!",
            ErrorKind::AuthError(AuthError::Unauthorized) => "Unauthorized",
            ErrorKind::StateError(StateError::AlreadySubmitted) => "Already submitted",
            ErrorKind::StateError(StateError::NotSubmitted) => "Not submitted",
            ErrorKind::StateError(StateError::AlreadyGraded) => "Already graded",
            ErrorKind::InvalidValue => "Invalid",
        };
        String::from_str(words)
    }
}

/// Registers the catchers for the statuses that the service answers with
/// a body of its own.
pub fn mount(rocket: Router) -> (r: Router)
    ensures
        r.routes@ == rocket.routes@,
        r.catchers@ == rocket.catchers@ + crate::catchers::caught(),
        r.file_servers@ == rocket.file_servers@,
{
    crate::catchers::mount(rocket)
}

} // verus!
