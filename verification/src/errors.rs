//! Errors that may occur while handling a request, with the context in which an
//! internal failure happened.
use crate::api_error::Status;
use vstd::prelude::*;

verus! {

/// An internal failure: what went wrong, and what was being attempted, innermost
/// attempt first.
#[derive(Debug)]
pub struct Failure {
    /// What went wrong.
    pub cause: String,
    /// What was being attempted, innermost first.
    pub context: Vec<&'static str>,
}

/// Any error that may occur while handling a request.
#[derive(Debug)]
pub enum Error {
    /// An external service failed or an internal constraint was violated.
    Internal(Failure),
    /// The user could not be authenticated.
    Auth(&'static str),
    /// The user's request was invalid.
    InvalidForm(&'static str),
    /// The requested resource was not found.
    NotFound(&'static str),
}

impl Error {
    /// The status category of this error.
    pub open spec fn status(self) -> Status {
        match self {
            Error::Internal(_) => Status::InternalServerError,
            Error::Auth(_) => Status::Unauthorized,
            Error::InvalidForm(_) => Status::BadRequest,
            Error::NotFound(_) => Status::NotFound,
        }
    }

    /// The text that the client is sent.
    pub open spec fn text(self) -> Seq<char> {
        match self {
            Error::Internal(_) => "internal server error"@,
            Error::Auth(text) => text@,
            Error::InvalidForm(text) => text@,
            Error::NotFound(text) => text@,
        }
    }

    /// An internal error from what went wrong, with no context yet.
    pub fn internal(cause: String) -> (error: Self)
        ensures
            error matches Error::Internal(failure) && failure.cause == cause
                && failure.context@.len() == 0,
    {
        Error::Internal(Failure { cause, context: Vec::new() })
    }

    /// Give additional context on what was being attempted if this is an internal error.
    /// Any other error is handed back as it is.
    pub fn wrap_err(self, msg: &'static str) -> (wrapped: Self)
        ensures
            match self {
                Error::Internal(failure) => wrapped matches Error::Internal(after)
                    && after.cause == failure.cause && after.context@
                    == failure.context@.push(msg),
                _ => wrapped == self,
            },
    {
        match self {
            Self::Internal(failure) => {
                let Failure { cause, mut context } = failure;
                context.push(msg);
                Self::Internal(Failure { cause, context })
            },
            other => other,
        }
    }

    /// The status and the text of the response that reports this error.
    pub fn response_parts(&self) -> (parts: (Status, &'static str))
        ensures
            parts.0 == self.status(),
            parts.1@ == self.text(),
    {
        match self {
            Self::Internal(_) => (Status::InternalServerError, "internal server error"),
            Self::Auth(text) => (Status::Unauthorized, *text),
            Self::InvalidForm(text) => (Status::BadRequest, *text),
            Self::NotFound(text) => (Status::NotFound, *text),
        }
    }
}

/// Extra methods on `Result` for working with [`Error`].
pub trait ResultExt<T>: Sized {
    /// What the result is once context has been added.
    spec fn wrapped(self, msg: &'static str, out: Result<T, Error>) -> bool;

    /// Give additional context on what was being attempted.
    fn wrap_err(self, msg: &'static str) -> (out: Result<T, Error>)
        ensures
            self.wrapped(msg, out),
    ;
}

impl<T> ResultExt<T> for Result<T, Error> {
    open spec fn wrapped(self, msg: &'static str, out: Result<T, Error>) -> bool {
        match self {
            Ok(value) => out == Ok::<T, Error>(value),
            Err(Error::Internal(failure)) => out matches Err(Error::Internal(after))
                && after.cause == failure.cause && after.context@ == failure.context@.push(msg),
            Err(error) => out == Err::<T, Error>(error),
        }
    }

    fn wrap_err(self, msg: &'static str) -> (out: Result<T, Error>) {
        match self {
            Ok(value) => Ok(value),
            Err(error) => Err(error.wrap_err(msg)),
        }
    }
}

} // verus!
