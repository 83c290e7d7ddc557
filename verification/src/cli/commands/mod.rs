//! What the commands do.

pub mod define;
