//! The workers, the tokens that open the service to callers, and the
//! notices sent when an experiment changes state.

pub mod agents;
pub mod callback;
pub mod ident;
pub mod tokens;
