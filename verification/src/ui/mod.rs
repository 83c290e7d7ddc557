//! What the pages about experiments show.

pub mod routes;

pub use crate::ui::routes::format_duration;
