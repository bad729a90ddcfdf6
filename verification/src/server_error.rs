use vstd::prelude::*;
use vstd::string::*;
use crate::api::{error_views, failures_text, ValidationErrors};

verus! {

/// The failures of a request handler. Failures of the database, of password
/// hashing and of joining a worker carry the outside error's message.
#[derive(Debug, Clone)]
pub enum Error {
    DatabaseError(String),
    HashError(String),
    MultithreadError(String),
    JsonError,
    InternalError,
    NotFound,
    AlreadyExists,
    ValidationError(ValidationErrors),
    Unauthorized,
    Forbidden,
    InvalidCredentials,
    BadRequest,
}

/// The HTTP status with which a failure is answered.
pub open spec fn status_of(e: Error) -> u16 {
    match e {
        Error::ValidationError(..) | Error::InvalidCredentials | Error::BadRequest => 400,
        Error::NotFound => 404,
        Error::AlreadyExists => 409,
        Error::Unauthorized => 401,
        Error::Forbidden => 403,
        _ => 500,
    }
}

/// The text with which a failure is answered: the carried message, the
/// report of the failed fields, or the failure's name.
pub open spec fn error_text(e: Error) -> Seq<char> {
    match e {
        Error::DatabaseError(m) => m@,
        Error::HashError(m) => m@,
        Error::MultithreadError(m) => m@,
        Error::JsonError => "JsonError"@,
        Error::InternalError => "InternalError"@,
        Error::NotFound => "NotFound"@,
        Error::AlreadyExists => "AlreadyExists"@,
        Error::ValidationError(v) => failures_text(error_views(v.errors@)),
        Error::Unauthorized => "Unauthorized"@,
        Error::Forbidden => "Forbidden"@,
        Error::InvalidCredentials => "InvalidCredentials"@,
        Error::BadRequest => "BadRequest"@,
    }
}

impl Error {
    /// The HTTP status of the answer.
    pub fn status_code(&self) -> (r: u16)
        ensures
            r == status_of(*self),
    {
        match self {
            Error::ValidationError(..) | Error::InvalidCredentials | Error::BadRequest => 400,
            Error::NotFound => 404,
            Error::AlreadyExists => 409,
            Error::Unauthorized => 401,
            Error::Forbidden => 403,
            _ => 500,
        }
    }

    /// The body of the answer.
    pub fn to_text(&self) -> (r: String)
        ensures
            r@ == error_text(*self),
    {
        match self {
            Error::DatabaseError(m) => m.clone(),
            Error::HashError(m) => m.clone(),
            Error::MultithreadError(m) => m.clone(),
            Error::JsonError => String::from_str("JsonError"),
            Error::InternalError => String::from_str("InternalError"),
            Error::NotFound => String::from_str("NotFound"),
            Error::AlreadyExists => String::from_str("AlreadyExists"),
            Error::ValidationError(v) => v.describe(),
            Error::Unauthorized => String::from_str("Unauthorized"),
            Error::Forbidden => String::from_str("Forbidden"),
            Error::InvalidCredentials => String::from_str("InvalidCredentials"),
            Error::BadRequest => String::from_str("BadRequest"),
        }
    }
}

/// Every failure is answered with an error status: a client error (4xx) for
/// what the request got wrong, a server error (500) for the rest.
pub proof fn law_error_status_is_error(e: Error)
    ensures
        400 <= status_of(e) <= 500,
        status_of(e) == 500 <==> (e is DatabaseError || e is HashError || e is MultithreadError
            || e is JsonError || e is InternalError),
{
}

} // verus!
