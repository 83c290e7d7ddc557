//! What callers may do with the store.

pub mod experiments;
