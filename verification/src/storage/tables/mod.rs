//! The stored tables. Each row type has the relation that writing a value establishes,
//! the field that makes a stored row unreadable, and the relation that reading establishes.

pub mod columns;
pub mod company;
pub mod history;
pub mod operations;
pub mod project_laws;
pub mod projects;
pub mod readable;
pub mod state;
pub mod targets;
pub mod world;
