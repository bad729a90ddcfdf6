use vstd::prelude::*;
use vstd::string::*;
use crate::api::{error_views, failures_text, ValidationErrors};

verus! {

/// The failures shared by the core crates. Failures of the database and of
/// JSON parsing carry the outside error's message.
#[derive(Debug, Clone)]
pub enum Error {
    DatabaseError(String),
    JsonError(String),
    InternalError,
    NotFound,
    ValidationError(ValidationErrors),
}

/// The HTTP status with which a failure is answered.
pub open spec fn core_status_of(e: Error) -> u16 {
    match e {
        Error::ValidationError(..) => 400,
        Error::NotFound => 404,
        _ => 500,
    }
}

/// The text with which a failure is answered.
pub open spec fn core_error_text(e: Error) -> Seq<char> {
    match e {
        Error::DatabaseError(..) => "DATABASE_ERROR"@,
        Error::JsonError(..) => "JSON_PARSE_ERROR"@,
        Error::InternalError => "INTERNAL_SERVER_ERROR"@,
        Error::NotFound => "NOT_FOUND"@,
        Error::ValidationError(v) => "VALIDATION_ERROR: "@ + failures_text(error_views(v.errors@)),
    }
}

impl Error {
    /// The HTTP status of the answer.
    pub fn status_code(&self) -> (r: u16)
        ensures
            r == core_status_of(*self),
    {
        match self {
            Error::ValidationError(..) => 400,
            Error::NotFound => 404,
            _ => 500,
        }
    }

    /// The body of the answer.
    pub fn to_text(&self) -> (r: String)
        ensures
            r@ == core_error_text(*self),
    {
        match self {
            Error::DatabaseError(..) => String::from_str("DATABASE_ERROR"),
            Error::JsonError(..) => String::from_str("JSON_PARSE_ERROR"),
            Error::InternalError => String::from_str("INTERNAL_SERVER_ERROR"),
            Error::NotFound => String::from_str("NOT_FOUND"),
            Error::ValidationError(v) => {
                let mut out = String::from_str("VALIDATION_ERROR: ");
                out.append(v.describe().as_str());
                out
            },
        }
    }
}

} // verus!
