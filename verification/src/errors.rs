//! The failures that a caller can be told of.

use vstd::prelude::*;

verus! {

/// The three ways in which a request fails.
///
/// `BadRequest`: the request itself is wrong, and the table was not touched.
/// `NotFound`: the task that the request names is not in the table.
/// `InternalServerError`: the table could not be read or written.
#[derive(Clone, Copy, Debug, PartialEq, Eq, Structural)]
pub enum ApiError {
    BadRequest,
    NotFound,
    InternalServerError,
}

impl ApiError {
    /// The HTTP status that stands for this failure.
    pub open spec fn spec_status(self) -> u16 {
        match self {
            ApiError::BadRequest => 400,
            ApiError::NotFound => 404,
            ApiError::InternalServerError => 500,
        }
    }

    /// The fixed words that the caller is given. They never hold anything of
    /// what went wrong inside.
    pub open spec fn spec_message(self) -> Seq<char> {
        match self {
            ApiError::BadRequest => "Bad Request"@,
            ApiError::NotFound => "Not Found"@,
            ApiError::InternalServerError => "Internal Server Error"@,
        }
    }

    #[verifier::when_used_as_spec(spec_status)]
    pub fn status(self) -> (code: u16)
        ensures
            code == self.spec_status(),
    {
        match self {
            ApiError::BadRequest => 400,
            ApiError::NotFound => 404,
            ApiError::InternalServerError => 500,
        }
    }

    pub fn message(self) -> (text: &'static str)
        ensures
            text@ == self.spec_message(),
    {
        match self {
            ApiError::BadRequest => "Bad Request",
            ApiError::NotFound => "Not Found",
            ApiError::InternalServerError => "Internal Server Error",
        }
    }
}

} // verus!
