//! The requests, by what they are about.

pub mod agents;
pub mod experiments;
pub mod health;
pub mod ui;
