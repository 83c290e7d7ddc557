//! The errors that callers from outside see.

use crate::Error;
use vstd::prelude::*;

verus! {

/// An error with its message.
#[derive(Debug, PartialEq, Eq)]
pub enum ApiError {
    NotFound(String),
    BadRequest(String),
    Unauthorized(String),
    Forbidden(String),
    Conflict(String),
    InternalServerError(String),
}

pub enum ApiErrorView {
    NotFound(Seq<char>),
    BadRequest(Seq<char>),
    Unauthorized(Seq<char>),
    Forbidden(Seq<char>),
    Conflict(Seq<char>),
    InternalServerError(Seq<char>),
}

impl View for ApiError {
    type V = ApiErrorView;

    open spec fn view(&self) -> ApiErrorView {
        match *self {
            ApiError::NotFound(m) => ApiErrorView::NotFound(m@),
            ApiError::BadRequest(m) => ApiErrorView::BadRequest(m@),
            ApiError::Unauthorized(m) => ApiErrorView::Unauthorized(m@),
            ApiError::Forbidden(m) => ApiErrorView::Forbidden(m@),
            ApiError::Conflict(m) => ApiErrorView::Conflict(m@),
            ApiError::InternalServerError(m) => ApiErrorView::InternalServerError(m@),
        }
    }
}

impl ApiErrorView {
    /// The status with which the error is answered.
    pub open spec fn status(self) -> u16 {
        match self {
            ApiErrorView::NotFound(_) => 404,
            ApiErrorView::BadRequest(_) => 400,
            ApiErrorView::Unauthorized(_) => 401,
            ApiErrorView::Forbidden(_) => 403,
            ApiErrorView::Conflict(_) => 409,
            ApiErrorView::InternalServerError(_) => 500,
        }
    }

    /// The code that names the kind of the error.
    pub open spec fn code(self) -> Seq<char> {
        match self {
            ApiErrorView::NotFound(_) => "NOT_FOUND"@,
            ApiErrorView::BadRequest(_) => "BAD_REQUEST"@,
            ApiErrorView::Unauthorized(_) => "UNAUTHORIZED"@,
            ApiErrorView::Forbidden(_) => "FORBIDDEN"@,
            ApiErrorView::Conflict(_) => "CONFLICT"@,
            ApiErrorView::InternalServerError(_) => "INTERNAL_SERVER_ERROR"@,
        }
    }

    /// The message of the error.
    pub open spec fn message(self) -> Seq<char> {
        match self {
            ApiErrorView::NotFound(m) => m,
            ApiErrorView::BadRequest(m) => m,
            ApiErrorView::Unauthorized(m) => m,
            ApiErrorView::Forbidden(m) => m,
            ApiErrorView::Conflict(m) => m,
            ApiErrorView::InternalServerError(m) => m,
        }
    }

    /// The error that callers see for a failure of the given kind: a name
    /// that is taken is a conflict, an operation that the state does not
    /// allow is a bad request, the others are what they are.
    pub open spec fn of(kind: Error, message: Seq<char>) -> ApiErrorView {
        match kind {
            Error::NotFound => ApiErrorView::NotFound(message),
            Error::AlreadyExists => ApiErrorView::Conflict(message),
            Error::InvalidState => ApiErrorView::BadRequest(message),
            Error::BadRequest => ApiErrorView::BadRequest(message),
            Error::Unauthorized => ApiErrorView::Unauthorized(message),
            Error::Forbidden => ApiErrorView::Forbidden(message),
            Error::Internal => ApiErrorView::InternalServerError(message),
        }
    }
}

impl ApiError {
    /// The status with which the error is answered.
    pub fn status(&self) -> (r: u16)
        ensures
            r == self@.status(),
    {
        match self {
            ApiError::NotFound(_) => 404,
            ApiError::BadRequest(_) => 400,
            ApiError::Unauthorized(_) => 401,
            ApiError::Forbidden(_) => 403,
            ApiError::Conflict(_) => 409,
            ApiError::InternalServerError(_) => 500,
        }
    }

    /// The code that names the kind of the error.
    pub fn code(&self) -> (r: &'static str)
        ensures
            r@ == self@.code(),
    {
        match self {
            ApiError::NotFound(_) => "NOT_FOUND",
            ApiError::BadRequest(_) => "BAD_REQUEST",
            ApiError::Unauthorized(_) => "UNAUTHORIZED",
            ApiError::Forbidden(_) => "FORBIDDEN",
            ApiError::Conflict(_) => "CONFLICT",
            ApiError::InternalServerError(_) => "INTERNAL_SERVER_ERROR",
        }
    }

    /// The message of the error.
    pub fn message(&self) -> (r: &str)
        ensures
            r@ == self@.message(),
    {
        match self {
            ApiError::NotFound(m) => m.as_str(),
            ApiError::BadRequest(m) => m.as_str(),
            ApiError::Unauthorized(m) => m.as_str(),
            ApiError::Forbidden(m) => m.as_str(),
            ApiError::Conflict(m) => m.as_str(),
            ApiError::InternalServerError(m) => m.as_str(),
        }
    }

    /// The error that callers see for a failure of the given kind.
    pub fn of(kind: Error, message: String) -> (r: ApiError)
        ensures
            r@ == ApiErrorView::of(kind, message@),
    {
        match kind {
            Error::NotFound => ApiError::NotFound(message),
            Error::AlreadyExists => ApiError::Conflict(message),
            Error::InvalidState => ApiError::BadRequest(message),
            Error::BadRequest => ApiError::BadRequest(message),
            Error::Unauthorized => ApiError::Unauthorized(message),
            Error::Forbidden => ApiError::Forbidden(message),
            Error::Internal => ApiError::InternalServerError(message),
        }
    }
}

impl Error {
    /// What the kind of failure means, in words.
    pub open spec fn spec_describe(self) -> Seq<char> {
        match self {
            Error::NotFound => "not found"@,
            Error::AlreadyExists => "already exists"@,
            Error::InvalidState => "not allowed in the current state"@,
            Error::BadRequest => "invalid request"@,
            Error::Unauthorized => "missing or unknown token"@,
            Error::Forbidden => "permission denied"@,
            Error::Internal => "internal error"@,
        }
    }

    /// What the kind of failure means, in words.
    pub fn describe(&self) -> (r: &'static str)
        ensures
            r@ == self.spec_describe(),
    {
        match self {
            Error::NotFound => "not found",
            Error::AlreadyExists => "already exists",
            Error::InvalidState => "not allowed in the current state",
            Error::BadRequest => "invalid request",
            Error::Unauthorized => "missing or unknown token",
            Error::Forbidden => "permission denied",
            Error::Internal => "internal error",
        }
    }
}

impl ApiError {
    /// The error that callers see for a failure of the given kind, with
    /// what the kind means as its message.
    pub fn from_error(kind: Error) -> (r: ApiError)
        ensures
            r@ == ApiErrorView::of(kind, kind.spec_describe()),
    {
        ApiError::of(kind, kind.describe().to_owned())
    }
}

/// Whether `r` is what callers see of `inner`: what was given where the
/// operation was done, the error with what its kind means where not.
pub open spec fn answered<T>(inner: Result<T, Error>, r: Result<T, ApiErrorView>) -> bool {
    match inner {
        Ok(x) => r == Ok::<T, ApiErrorView>(x),
        Err(e) => r == Err::<T, ApiErrorView>(ApiErrorView::of(e, e.spec_describe())),
    }
}

/// What callers see of the result of an operation, seen as its view.
pub open spec fn answer_view<T>(r: Result<T, ApiError>) -> Result<T, ApiErrorView> {
    match r {
        Ok(x) => Ok(x),
        Err(e) => Err(e@),
    }
}

/// What callers see of the result of an operation.
pub fn answer<T>(inner: Result<T, Error>) -> (r: Result<T, ApiError>)
    ensures
        answered(inner, answer_view(r)),
{
    match inner {
        Ok(x) => Ok(x),
        Err(e) => Err(ApiError::from_error(e)),
    }
}

} // verus!
