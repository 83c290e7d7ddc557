//! Whether the service is alive, and what it is.

use vstd::prelude::*;

verus! {

/// The version of this service.
pub const VERSION: &'static str = "0.1.0";

/// The answer to the question whether the service is alive.
#[derive(Debug, PartialEq, Eq)]
pub struct HealthStatus {
    pub status: String,
    pub version: String,
}

/// What the service says of itself.
#[derive(Debug, PartialEq, Eq)]
pub struct ConfigInfo {
    pub version: String,
}

/// The service is alive.
pub fn health() -> (r: HealthStatus)
    ensures
        r.status@ == "ok"@,
        r.version@ == VERSION@,
{
    HealthStatus { status: "ok".to_owned(), version: VERSION.to_owned() }
}

/// What the service says of itself.
pub fn config() -> (r: ConfigInfo)
    ensures
        r.version@ == VERSION@,
{
    ConfigInfo { version: VERSION.to_owned() }
}

} // verus!
