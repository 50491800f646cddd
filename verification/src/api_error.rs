//! Errors that may occur while handling a request, as the client gets to see them.
use vstd::prelude::*;

verus! {

/// The status category of a failed request.
#[derive(Debug, PartialEq, Eq, Clone, Copy, Structural)]
pub enum Status {
    /// 400: the request was invalid.
    BadRequest,
    /// 401: the client could not be authenticated.
    Unauthorized,
    /// 403: the client may not do this.
    Forbidden,
    /// 404: the resource does not exist.
    NotFound,
    /// 409: the request conflicts with the current state.
    Conflict,
    /// 500: something went wrong on our side.
    InternalServerError,
}

impl Status {
    /// The status code.
    pub open spec fn spec_code(self) -> u16 {
        match self {
            Status::BadRequest => 400,
            Status::Unauthorized => 401,
            Status::Forbidden => 403,
            Status::NotFound => 404,
            Status::Conflict => 409,
            Status::InternalServerError => 500,
        }
    }

    /// The status code.
    #[verifier::when_used_as_spec(spec_code)]
    pub fn code(self) -> (code: u16)
        ensures
            code == self.spec_code(),
    {
        match self {
            Status::BadRequest => 400,
            Status::Unauthorized => 401,
            Status::Forbidden => 403,
            Status::NotFound => 404,
            Status::Conflict => 409,
            Status::InternalServerError => 500,
        }
    }
}

/// The text that the client is sent for any internal error.
pub open spec fn internal_text() -> Seq<char> {
    "internal server error"@
}

/// Any error that may occur while handling a request.
#[derive(Debug)]
pub enum ApiError {
    /// An external service failed or an internal constraint was violated. The text is
    /// for the log, never for the client.
    Internal(String),
    /// The client's request could not be completed because of a client error.
    ///
    /// The status code should be in the 4xx range.
    Client((Status, &'static str)),
}

impl ApiError {
    /// The status category of this error.
    pub open spec fn status(self) -> Status {
        match self {
            ApiError::Internal(_) => Status::InternalServerError,
            ApiError::Client((status, _)) => status,
        }
    }

    /// The text that the client is sent: the literal reason of a client error, and one
    /// fixed text for every internal error.
    pub open spec fn text(self) -> Seq<char> {
        match self {
            ApiError::Internal(_) => internal_text(),
            ApiError::Client((_, text)) => text@,
        }
    }

    /// Construct a 400 Bad Request error.
    pub fn bad_request(msg: &'static str) -> (error: Self)
        ensures
            error == ApiError::Client((Status::BadRequest, msg)),
    {
        Self::Client((Status::BadRequest, msg))
    }

    /// Construct a 401 Unauthorized error.
    pub fn unauthorised(msg: &'static str) -> (error: Self)
        ensures
            error == ApiError::Client((Status::Unauthorized, msg)),
    {
        Self::Client((Status::Unauthorized, msg))
    }

    /// Construct a 403 Forbidden error.
    pub fn forbidden(msg: &'static str) -> (error: Self)
        ensures
            error == ApiError::Client((Status::Forbidden, msg)),
    {
        Self::Client((Status::Forbidden, msg))
    }

    /// Construct a 404 Not Found error.
    pub fn not_found(msg: &'static str) -> (error: Self)
        ensures
            error == ApiError::Client((Status::NotFound, msg)),
    {
        Self::Client((Status::NotFound, msg))
    }

    /// Construct a 409 Conflict error.
    pub fn conflict(msg: &'static str) -> (error: Self)
        ensures
            error == ApiError::Client((Status::Conflict, msg)),
    {
        Self::Client((Status::Conflict, msg))
    }

    /// Construct an internal error from what went wrong.
    pub fn internal(cause: String) -> (error: Self)
        ensures
            error == ApiError::Internal(cause),
    {
        Self::Internal(cause)
    }

    /// The status and the text of the response that reports this error.
    pub fn response_parts(&self) -> (parts: (Status, &'static str))
        ensures
            parts.0 == self.status(),
            parts.1@ == self.text(),
    {
        match self {
            Self::Internal(_) => (Status::InternalServerError, "internal server error"),
            Self::Client((status, text)) => (*status, *text),
        }
    }

    /// Turn this error into the failing outcome of a request guard: the status to answer
    /// with, and the error itself.
    pub fn into_outcome(self) -> (outcome: (Status, Self))
        ensures
            outcome.0 == self.status(),
            outcome.1 == self,
    {
        let status = match &self {
            Self::Internal(_) => Status::InternalServerError,
            Self::Client((status, _)) => *status,
        };
        (status, self)
    }
}

} // verus!
