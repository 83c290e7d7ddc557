//! What callers from outside may ask of the service, whatever carries
//! their requests: the requests, the answers, and the errors.

pub mod error;
pub mod middleware;
pub mod routes;
