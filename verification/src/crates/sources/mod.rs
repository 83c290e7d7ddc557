//! Where a package comes from.

pub mod gitcode;
pub mod github;
pub mod registry;
