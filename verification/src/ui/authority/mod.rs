//! The Rail Authority's infrastructure programme.

pub mod analytics;
pub mod contribution;
pub mod dashboard;
pub mod format;
pub mod laws;
pub mod order;
pub mod page_laws;
pub mod programme;
pub mod project;
pub mod selection;
pub mod workspace;
