//! Small self-contained codecs.

pub mod hex;
pub mod json;
pub mod size;
