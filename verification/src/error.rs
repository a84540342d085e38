//! The errors that the service answers a request with.

use vstd::prelude::*;

verus! {

/// An error of the service, each answered with its own HTTP status.
#[derive(Debug, Clone, Copy, PartialEq, Eq, Structural)]
pub enum ServiceError {
    Unauthorised,
    BadRequest,
    NotFound,
}

impl ServiceError {
    /// The HTTP status code of the response to this error.
    pub fn status_code(&self) -> (code: u16)
        ensures
            code == match self {
                ServiceError::Unauthorised => 401u16,
                ServiceError::BadRequest => 400u16,
                ServiceError::NotFound => 404u16,
            },
    {
        match self {
            ServiceError::Unauthorised => 401,
            ServiceError::BadRequest => 400,
            ServiceError::NotFound => 404,
        }
    }

    /// The JSON string that the response to this error carries as its body.
    pub fn response_body(&self) -> (body: String)
        ensures
            body@ == match self {
                ServiceError::Unauthorised => "Unauthorised"@,
                ServiceError::BadRequest => "Bad_Request"@,
                ServiceError::NotFound => "Not Found"@,
            },
    {
        match self {
            ServiceError::Unauthorised => "Unauthorised".to_owned(),
            ServiceError::BadRequest => "Bad_Request".to_owned(),
            ServiceError::NotFound => "Not Found".to_owned(),
        }
    }

    /// The text that describes this error.
    pub fn description(&self) -> (text: String)
        ensures
            text@ == match self {
                ServiceError::Unauthorised => "Unauthorised"@,
                ServiceError::BadRequest => "Bad Request"@,
                ServiceError::NotFound => "Not Found"@,
            },
    {
        match self {
            ServiceError::Unauthorised => "Unauthorised".to_owned(),
            ServiceError::BadRequest => "Bad Request".to_owned(),
            ServiceError::NotFound => "Not Found".to_owned(),
        }
    }
}

} // verus!
