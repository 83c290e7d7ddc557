//! Coordination plane of an experiment-orchestration service: experiments that
//! test a population of packages against two toolchains, the workers that run
//! them, the per-package results, and the report derived from those results.

use vstd::prelude::*;

pub mod actions;
pub mod api;
pub mod cli;
pub mod config;
pub mod crates;
pub mod db;
pub mod experiments;
pub mod model;
pub mod platforms;
pub mod report;
pub mod results;
pub mod runner;
pub mod server;
pub mod text;
pub mod time;
pub mod toolchain;
pub mod ui;
pub mod utils;

verus! {

/// The name under which this service identifies itself to others.
pub const USER_AGENT: &'static str = "crater-ohos";

/// The kinds of failure visible at the public boundary.
#[derive(Clone, Copy, Debug, PartialEq, Eq, Hash, Structural)]
pub enum Error {
    /// The addressed entity is absent.
    NotFound,
    /// A primary key is already taken.
    AlreadyExists,
    /// The operation is not allowed in the current state.
    InvalidState,
    /// The input could not be parsed.
    BadRequest,
    /// The token is missing or unknown.
    Unauthorized,
    /// The token lacks the required permission.
    Forbidden,
    /// A lower layer failed unexpectedly.
    Internal,
}

pub type Fallible<T> = Result<T, Error>;

impl Error {
    /// The name of the kind, as the public boundary spells it.
    pub open spec fn spec_code(self) -> Seq<char> {
        match self {
            Error::NotFound => "NOT_FOUND"@,
            Error::AlreadyExists => "ALREADY_EXISTS"@,
            Error::InvalidState => "INVALID_STATE"@,
            Error::BadRequest => "BAD_REQUEST"@,
            Error::Unauthorized => "UNAUTHORIZED"@,
            Error::Forbidden => "FORBIDDEN"@,
            Error::Internal => "INTERNAL"@,
        }
    }

    pub fn code(&self) -> (r: &'static str)
        ensures
            r@ == self.spec_code(),
    {
        match self {
            Error::NotFound => "NOT_FOUND",
            Error::AlreadyExists => "ALREADY_EXISTS",
            Error::InvalidState => "INVALID_STATE",
            Error::BadRequest => "BAD_REQUEST",
            Error::Unauthorized => "UNAUTHORIZED",
            Error::Forbidden => "FORBIDDEN",
            Error::Internal => "INTERNAL",
        }
    }
}

} // verus!
