//! The failure taxonomy shared by every operation, with its stable status codes.

use vstd::prelude::*;

verus! {

/// Why a request was turned down.
#[derive(Clone, Copy, Debug, PartialEq, Eq, Structural)]
pub enum ApiError {
    /// No assertion, or one that is garbled, forged or expired.
    Unauthenticated,
    /// A valid assertion that lacks the privilege or the ownership required.
    Forbidden,
    /// The target resource does not exist.
    NotFound,
    /// A uniqueness rule was violated on creation.
    Conflict,
    /// The requested change is structurally invalid.
    BadRequest,
    /// Storage or codec failure unrelated to the caller's input.
    Internal,
}

impl ApiError {
    /// The HTTP status code that stands for this failure.
    pub open spec fn code(self) -> int {
        match self {
            ApiError::Unauthenticated => 401,
            ApiError::Forbidden => 403,
            ApiError::NotFound => 404,
            ApiError::Conflict => 409,
            ApiError::BadRequest => 400,
            ApiError::Internal => 500,
        }
    }

    /// The HTTP status code that stands for this failure.
    pub fn status_code(&self) -> (r: u16)
        ensures
            r == self.code(),
    {
        match self {
            ApiError::Unauthenticated => 401,
            ApiError::Forbidden => 403,
            ApiError::NotFound => 404,
            ApiError::Conflict => 409,
            ApiError::BadRequest => 400,
            ApiError::Internal => 500,
        }
    }
}

/// What a handler hands back to the transport: a status code and a short,
/// human-readable text or payload kind.
#[derive(Clone, Copy, Debug, PartialEq, Eq, Structural)]
pub enum Outcome {
    /// 200: the request succeeded and a body follows.
    Success,
    /// 201: a resource was created.
    Created,
    /// 204: the request succeeded and there is nothing to send.
    NoContent,
    /// The request failed for the given reason.
    Failed(ApiError),
}

impl Outcome {
    /// The HTTP status code of this outcome.
    pub open spec fn code(self) -> int {
        match self {
            Outcome::Success => 200,
            Outcome::Created => 201,
            Outcome::NoContent => 204,
            Outcome::Failed(e) => e.code(),
        }
    }

    /// The HTTP status code of this outcome.
    pub fn status_code(&self) -> (r: u16)
        ensures
            r == self.code(),
    {
        match self {
            Outcome::Success => 200,
            Outcome::Created => 201,
            Outcome::NoContent => 204,
            Outcome::Failed(e) => e.status_code(),
        }
    }
}

} // verus!
