//! What stands between a request and its answer.

pub mod auth;
