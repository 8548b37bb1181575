//! What the terminal shows: styled text, workspaces and their keyboard behaviour.

pub mod authority;
pub mod bulletin;
pub mod calendar;
pub mod company;
pub mod components;
pub mod format;
pub mod geometry;
pub mod keys;
pub mod laws;
pub mod places;
pub mod shell;
pub mod style;
